use vstd::prelude::*;

verus! {

/// Longest company name (in characters) that a vesting record may carry.
pub const MAX_COMPANY_NAME_LEN: usize = 50;

/// A 32-byte account address: the identity of an owner, a beneficiary, an
/// asset mint or a holding account on the ledger.
#[derive(Clone, Copy, Debug, PartialEq, Eq)]
pub struct Address {
    pub bytes: [u8; 32],
}

impl View for Address {
    type V = Seq<u8>;

    open spec fn view(&self) -> Seq<u8> {
        self.bytes@
    }
}

/// The registry record of one vesting program: who administers it, which
/// asset it vests, and which treasury account custodies the locked funds.
///
/// Created once by its owner and never mutated afterwards. The `company_name`
/// is the unique lookup key and the seed from which the record's own address
/// and the treasury's spending authority are re-derived.
#[derive(Clone, Debug, PartialEq, Eq)]
pub struct VestingAccount {
    /// Identity of the creating and administering party.
    pub owner: Address,
    /// Identifier of the fungible asset being vested.
    pub mint: Address,
    /// The holding account that custodies locked funds for this grant.
    pub treasury_token_account: Address,
    /// Human-chosen unique key; also the derivation seed.
    pub company_name: String,
    /// Bump recorded at creation so the treasury authority can be re-derived.
    pub treasury_bump: u8,
    /// Bump recorded at creation so this record's address can be re-derived.
    pub bump: u8,
}

impl VestingAccount {
    /// The record's structural invariant: the lookup key stays within bounds.
    pub open spec fn well_formed(self) -> bool {
        self.company_name@.len() <= MAX_COMPANY_NAME_LEN
    }
}

/// The per-beneficiary grant record: the schedule, the total entitlement and
/// the cumulative amount already paid out.
///
/// `withdrawn` starts at zero and is the only field ever mutated after
/// creation, exclusively by a successful claim.
#[derive(Clone, Copy, Debug, PartialEq, Eq)]
pub struct EmployeeAccount {
    /// Identity entitled to withdraw.
    pub employee: Address,
    /// Schedule start, seconds.
    pub start_time: i64,
    /// Schedule end (maturity), seconds.
    pub end_time: i64,
    /// Earliest time at which any claim is permitted, seconds.
    pub cliff_time: i64,
    /// Back-reference to the parent vesting record.
    pub vesting_account: Address,
    /// Total value ever claimable under this grant.
    pub total_amount: u64,
    /// Cumulative amount already paid out.
    pub withdrawn: u64,
    /// Bump recorded at creation so this record's address can be re-derived.
    pub bump: u8,
}

impl EmployeeAccount {
    /// The grant's structural invariant: what was paid out never exceeds the
    /// total entitlement.
    pub open spec fn well_formed(self) -> bool {
        self.withdrawn <= self.total_amount
    }
}

/// Builds the registry record for a new vesting program, binding its owner,
/// asset and treasury. No funds move here; the treasury starts empty.
///
/// Key collision on `company_name` is detected by the storage layer that
/// allocates the record, not here.
pub fn create_vesting_account(
    owner: Address,
    mint: Address,
    treasury_token_account: Address,
    company_name: String,
    treasury_bump: u8,
    bump: u8,
) -> (r: VestingAccount)
    requires
        company_name@.len() <= MAX_COMPANY_NAME_LEN,
    ensures
        r.owner == owner,
        r.mint == mint,
        r.treasury_token_account == treasury_token_account,
        r.company_name == company_name,
        r.treasury_bump == treasury_bump,
        r.bump == bump,
        r.well_formed(),
{
    VestingAccount { owner, mint, treasury_token_account, company_name, treasury_bump, bump }
}

/// Builds the grant record for one beneficiary under an existing vesting
/// program, with `withdrawn` starting at zero.
///
/// As in the ledger program this models, no ordering among `start_time`,
/// `cliff_time` and `end_time` is enforced, nor `total_amount > 0`; a
/// malformed schedule only surfaces at claim time.
pub fn create_employee_account(
    employee: Address,
    vesting_account: Address,
    start_time: i64,
    end_time: i64,
    total_amount: u64,
    cliff_time: i64,
    bump: u8,
) -> (r: EmployeeAccount)
    ensures
        r.employee == employee,
        r.vesting_account == vesting_account,
        r.start_time == start_time,
        r.end_time == end_time,
        r.cliff_time == cliff_time,
        r.total_amount == total_amount,
        r.withdrawn == 0,
        r.bump == bump,
        r.well_formed(),
{
    EmployeeAccount {
        employee,
        start_time,
        end_time,
        cliff_time,
        vesting_account,
        total_amount,
        withdrawn: 0,
        bump,
    }
}

} // verus!
