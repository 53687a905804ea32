use vstd::prelude::*;

verus! {

/// The reasons a vesting operation can fail.
///
/// Every error aborts the whole operation: no record is mutated when one of
/// these is returned.
#[derive(Clone, Copy, Debug, PartialEq, Eq, Structural)]
pub enum ErrorCode {
    /// A claim was attempted before the grant's cliff time.
    ClaimNotAvailableYet,
    /// The currently claimable amount is zero.
    NothingToClaim,
    /// The schedule has `end_time == start_time`, so the vested share is undefined.
    InvalidVestingPeriod,
    /// The vested-amount multiplication exceeded the representable range.
    CalculationOverflow,
}

} // verus!
