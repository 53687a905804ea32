use vstd::prelude::*;

use vstd::arithmetic::div_mod::lemma_div_by_multiple;
use vstd::arithmetic::div_mod::lemma_div_is_ordered;
use vstd::arithmetic::div_mod::lemma_div_pos_is_pos;

use crate::account::EmployeeAccount;
use crate::error::ErrorCode;

verus! {

/// Length of the vesting window in seconds; negative when the schedule's
/// maturity precedes its start.
pub open spec fn vesting_span(grant: EmployeeAccount) -> int {
    grant.end_time - grant.start_time
}

/// Seconds of the schedule already elapsed at `now`, clamped at zero.
pub open spec fn elapsed_at(grant: EmployeeAccount, now: i64) -> int {
    if now >= grant.start_time {
        now - grant.start_time
    } else {
        0
    }
}

/// Whether the vested share at `now` cannot be computed because the 64-bit
/// intermediate product `total_amount * elapsed` overflows.
pub open spec fn vested_overflows(grant: EmployeeAccount, now: i64) -> bool {
    now < grant.end_time && grant.total_amount * elapsed_at(grant, now) > u64::MAX
}

/// The amount vested at time `now`: the whole entitlement once the schedule
/// has matured, otherwise the time-proportional share
/// `floor(total_amount * elapsed / span)`.
pub open spec fn vested_at(grant: EmployeeAccount, now: i64) -> int {
    if now >= grant.end_time {
        grant.total_amount as int
    } else if elapsed_at(grant, now) == 0 {
        0
    } else {
        (grant.total_amount * elapsed_at(grant, now)) / vesting_span(grant)
    }
}

/// Outcome of the vested-share computation alone: the schedule must have a
/// nonzero span, and the intermediate product must fit in 64 bits.
pub open spec fn vested_result(grant: EmployeeAccount, now: i64) -> Result<u64, ErrorCode> {
    if vesting_span(grant) == 0 {
        Err(ErrorCode::InvalidVestingPeriod)
    } else if vested_overflows(grant, now) {
        Err(ErrorCode::CalculationOverflow)
    } else {
        Ok(vested_at(grant, now) as u64)
    }
}

/// Outcome of a claim at time `now`: the amount owed to the beneficiary, or
/// the error naming exactly the precondition that failed. The cliff test
/// comes first, then the schedule checks, and a zero claimable amount is the
/// last way to fail.
pub open spec fn claim_result(grant: EmployeeAccount, now: i64) -> Result<u64, ErrorCode> {
    if now < grant.cliff_time {
        Err(ErrorCode::ClaimNotAvailableYet)
    } else {
        match vested_result(grant, now) {
            Err(e) => Err(e),
            Ok(vested) => if vested <= grant.withdrawn {
                Err(ErrorCode::NothingToClaim)
            } else {
                Ok((vested - grant.withdrawn) as u64)
            },
        }
    }
}

/// The grant as a claim at `now` leaves it: a successful claim grows
/// `withdrawn` by exactly the claimed amount, a failed one changes nothing.
pub open spec fn grant_after_claim(grant: EmployeeAccount, now: i64) -> EmployeeAccount {
    match claim_result(grant, now) {
        Ok(amount) => (EmployeeAccount {
            withdrawn: (grant.withdrawn + amount) as u64,
            ..grant
        }),
        Err(_) => grant,
    }
}

/// The vested share never leaves `[0, total_amount]`, whatever the schedule
/// looks like — even one whose maturity precedes its start.
pub proof fn lemma_vested_bounds(grant: EmployeeAccount, now: i64)
    ensures
        0 <= vested_at(grant, now) <= grant.total_amount,
{
    if now >= grant.end_time {
    } else if elapsed_at(grant, now) == 0 {
    } else {
        let t = grant.total_amount as int;
        let e = elapsed_at(grant, now);
        let s = vesting_span(grant);
        assert(0 < e < s);
        assert(t * e <= t * s) by (nonlinear_arith)
            requires
                0 <= t,
                0 <= e <= s,
        ;
        assert(0 <= t * e) by (nonlinear_arith)
            requires
                0 <= t,
                0 <= e,
        ;
        lemma_div_pos_is_pos(t * e, s);
        lemma_div_is_ordered(t * e, t * s, s);
        lemma_div_by_multiple(t, s);
    }
}

/// Once the schedule has matured, the whole entitlement is vested, exactly.
pub proof fn lemma_vested_at_maturity(grant: EmployeeAccount, now: i64)
    requires
        now >= grant.end_time,
    ensures
        vested_at(grant, now) == grant.total_amount,
{
}

/// The vested share never decreases as time advances, for fixed grant
/// parameters.
pub proof fn lemma_vested_monotonic(grant: EmployeeAccount, t1: i64, t2: i64)
    requires
        t1 <= t2,
    ensures
        vested_at(grant, t1) <= vested_at(grant, t2),
{
    lemma_vested_bounds(grant, t1);
    lemma_vested_bounds(grant, t2);
    if t2 < grant.end_time && elapsed_at(grant, t2) != 0 {
        let t = grant.total_amount as int;
        let e1 = elapsed_at(grant, t1);
        let e2 = elapsed_at(grant, t2);
        let s = vesting_span(grant);
        assert(0 < e2 < s);
        if e1 == 0 {
            assert(0 <= t * e2) by (nonlinear_arith)
                requires
                    0 <= t,
                    0 <= e2,
            ;
            lemma_div_pos_is_pos(t * e2, s);
        } else {
            assert(t * e1 <= t * e2) by (nonlinear_arith)
                requires
                    0 <= t,
                    0 <= e1 <= e2,
            ;
            lemma_div_is_ordered(t * e1, t * e2, s);
        }
    }
}

/// A claim before the cliff fails with `ClaimNotAvailableYet` and leaves the
/// grant untouched.
pub proof fn lemma_claim_before_cliff(grant: EmployeeAccount, now: i64)
    requires
        now < grant.cliff_time,
    ensures
        claim_result(grant, now) == Err::<u64, ErrorCode>(ErrorCode::ClaimNotAvailableYet),
        grant_after_claim(grant, now) == grant,
{
}

/// Computes the share of the grant vested at `now`.
///
/// Fails with `InvalidVestingPeriod` when `end_time == start_time`, and with
/// `CalculationOverflow` when the intermediate product `total_amount *
/// elapsed` exceeds 64 bits; precision is preferred over availability, so the
/// product is never wrapped or saturated.
pub fn vested_amount(grant: &EmployeeAccount, now: i64) -> (r: Result<u64, ErrorCode>)
    ensures
        r == vested_result(*grant, now),
        r matches Ok(v) ==> v == vested_at(*grant, now) && v <= grant.total_amount,
{
    proof {
        lemma_vested_bounds(*grant, now);
    }
    if grant.end_time == grant.start_time {
        return Err(ErrorCode::InvalidVestingPeriod);
    }
    if now >= grant.end_time {
        return Ok(grant.total_amount);
    }
    let elapsed_wide: i128 = (now as i128) - (grant.start_time as i128);
    if elapsed_wide <= 0 {
        return Ok(0);
    }
    // Here start_time < now < end_time, so the elapsed time and the span are
    // positive and both fit in 64 bits.
    assert(0 < elapsed_wide <= u64::MAX as i128);
    let elapsed: u64 = elapsed_wide as u64;
    let span: u64 = ((grant.end_time as i128) - (grant.start_time as i128)) as u64;
    match grant.total_amount.checked_mul(elapsed) {
        Some(product) => Ok(product / span),
        None => Err(ErrorCode::CalculationOverflow),
    }
}

/// The decision half of a claim at `now`, with no state change: every
/// precondition is tested, and on success the result is what the beneficiary
/// is owed, namely the vested share minus what was already withdrawn.
///
/// The caller moves exactly the returned amount out of the treasury and only
/// then records the withdrawal, so that a failed transfer leaves the grant
/// unchanged.
pub fn claimable_amount(grant: &EmployeeAccount, now: i64) -> (r: Result<u64, ErrorCode>)
    ensures
        r == claim_result(*grant, now),
{
    if now < grant.cliff_time {
        return Err(ErrorCode::ClaimNotAvailableYet);
    }
    let vested = match vested_amount(grant, now) {
        Ok(v) => v,
        Err(e) => {
            return Err(e);
        },
    };
    if vested > grant.withdrawn {
        Ok(vested - grant.withdrawn)
    } else {
        Err(ErrorCode::NothingToClaim)
    }
}

/// Records a completed payout: `withdrawn` grows by exactly `amount`, and no
/// other field moves. To be called only after the external transfer of
/// `amount` has succeeded.
pub fn record_withdrawal(grant: &mut EmployeeAccount, amount: u64)
    requires
        old(grant).withdrawn + amount <= u64::MAX,
    ensures
        *final(grant) == (EmployeeAccount {
            withdrawn: (old(grant).withdrawn + amount) as u64,
            ..*old(grant)
        }),
{
    grant.withdrawn = grant.withdrawn + amount;
}

/// The whole claim decision and its state change in one step: on success the
/// returned amount is what the treasury owes the beneficiary, and `withdrawn`
/// has grown by exactly that amount; on failure the grant is untouched and
/// the error names the precondition that failed.
pub fn claim_amount(grant: &mut EmployeeAccount, now: i64) -> (r: Result<u64, ErrorCode>)
    ensures
        r == claim_result(*old(grant), now),
        *final(grant) == grant_after_claim(*old(grant), now),
        old(grant).well_formed() ==> final(grant).well_formed(),
{
    let g = *grant;
    proof {
        if g.well_formed() {
            lemma_claim_step_bounds(g, now);
        }
    }
    match claimable_amount(&g, now) {
        Ok(amount) => {
            proof {
                lemma_vested_bounds(*grant, now);
            }
            record_withdrawal(grant, amount);
            Ok(amount)
        },
        Err(e) => Err(e),
    }
}

/// A second claim immediately after a successful one, at the same time and
/// with no vesting progress in between, finds nothing left to pay.
pub proof fn lemma_repeat_claim_finds_nothing(grant: EmployeeAccount, now: i64)
    requires
        claim_result(grant, now) is Ok,
    ensures
        claim_result(grant_after_claim(grant, now), now) == Err::<u64, ErrorCode>(
            ErrorCode::NothingToClaim,
        ),
{
    lemma_vested_bounds(grant, now);
    let after = grant_after_claim(grant, now);
    assert(after.withdrawn == vested_at(grant, now));
    assert(vested_at(after, now) == vested_at(grant, now));
}

/// The grant as it stands after a series of claim attempts, one at each time
/// in `times`, in order; attempts that fail leave the record unchanged.
pub open spec fn grant_after_claims(grant: EmployeeAccount, times: Seq<i64>) -> EmployeeAccount
    decreases times.len(),
{
    if times.len() == 0 {
        grant
    } else {
        grant_after_claims(grant_after_claim(grant, times[0]), times.drop_first())
    }
}

/// One claim attempt keeps `withdrawn` within the entitlement and never
/// shrinks it; when the attempt succeeds, it leaves `withdrawn` exactly at --
/// so in particular never above -- the share vested at that moment.
pub proof fn lemma_claim_step_bounds(grant: EmployeeAccount, now: i64)
    requires
        grant.well_formed(),
    ensures
        grant_after_claim(grant, now).well_formed(),
        grant_after_claim(grant, now).total_amount == grant.total_amount,
        grant_after_claim(grant, now).withdrawn >= grant.withdrawn,
        claim_result(grant, now) is Ok ==> grant_after_claim(grant, now).withdrawn == vested_at(
            grant,
            now,
        ),
{
    lemma_vested_bounds(grant, now);
}

/// Across any sequence of claim attempts, the cumulative `withdrawn` never
/// exceeds `total_amount`; by `lemma_claim_step_bounds`, each successful
/// attempt also leaves it no higher than the share vested at its own time.
pub proof fn lemma_claims_never_overdraw(grant: EmployeeAccount, times: Seq<i64>)
    requires
        grant.well_formed(),
    ensures
        grant_after_claims(grant, times).well_formed(),
        grant_after_claims(grant, times).total_amount == grant.total_amount,
        grant_after_claims(grant, times).withdrawn <= grant.total_amount,
    decreases times.len(),
{
    if times.len() > 0 {
        lemma_claim_step_bounds(grant, times[0]);
        lemma_claims_never_overdraw(grant_after_claim(grant, times[0]), times.drop_first());
    }
}

} // verus!
