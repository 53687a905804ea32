use vesting::Address;
use vesting::ErrorCode;
use vesting::claim_amount;
use vesting::claimable_amount;
use vesting::create_employee_account;
use vesting::create_vesting_account;
use vesting::derive_treasury_authority;
use vesting::derive_vesting_account_address;
use vesting::record_withdrawal;
use vesting::vested_amount;

fn addr(tag: u8) -> Address {
    Address { bytes: [tag; 32] }
}

fn grant(start: i64, end: i64, cliff: i64, total: u64) -> vesting::EmployeeAccount {
    create_employee_account(addr(1), addr(2), start, end, total, cliff, 255)
}

#[test]
fn employee_account_starts_unwithdrawn() {
    let g = grant(0, 1000, 100, 1000);
    assert_eq!(g.employee, addr(1));
    assert_eq!(g.vesting_account, addr(2));
    assert_eq!(g.start_time, 0);
    assert_eq!(g.end_time, 1000);
    assert_eq!(g.cliff_time, 100);
    assert_eq!(g.total_amount, 1000);
    assert_eq!(g.withdrawn, 0);
    assert_eq!(g.bump, 255);
}

#[test]
fn vesting_account_records_its_fields() {
    let v = create_vesting_account(addr(3), addr(4), addr(5), String::from("acme"), 254, 253);
    assert_eq!(v.owner, addr(3));
    assert_eq!(v.mint, addr(4));
    assert_eq!(v.treasury_token_account, addr(5));
    assert_eq!(v.company_name, "acme");
    assert_eq!(v.treasury_bump, 254);
    assert_eq!(v.bump, 253);
}

#[test]
fn claim_before_cliff_fails_and_changes_nothing() {
    let mut g = grant(0, 1000, 100, 1000);
    let r = claim_amount(&mut g, 50);
    assert_eq!(r, Err(ErrorCode::ClaimNotAvailableYet));
    assert_eq!(g.withdrawn, 0);
}

#[test]
fn linear_schedule_pays_out_step_by_step() {
    let mut g = grant(0, 1000, 100, 1000);
    assert_eq!(claim_amount(&mut g, 50), Err(ErrorCode::ClaimNotAvailableYet));
    assert_eq!(claim_amount(&mut g, 100), Ok(100));
    assert_eq!(g.withdrawn, 100);
    assert_eq!(claim_amount(&mut g, 500), Ok(400));
    assert_eq!(g.withdrawn, 500);
    assert_eq!(claim_amount(&mut g, 1000), Ok(500));
    assert_eq!(g.withdrawn, 1000);
    assert_eq!(claim_amount(&mut g, 2000), Err(ErrorCode::NothingToClaim));
    assert_eq!(g.withdrawn, 1000);
}

#[test]
fn empty_schedule_is_an_invalid_period() {
    let mut g = grant(0, 0, 0, 1000);
    assert_eq!(claim_amount(&mut g, 5), Err(ErrorCode::InvalidVestingPeriod));
    assert_eq!(g.withdrawn, 0);
}

#[test]
fn huge_grant_overflows_instead_of_wrapping() {
    let mut g = grant(0, 4_000_000_000, 0, u64::MAX - 15);
    let r = claim_amount(&mut g, 3_000_000_000);
    assert_eq!(r, Err(ErrorCode::CalculationOverflow));
    assert_eq!(g.withdrawn, 0);
}

#[test]
fn second_claim_at_same_time_finds_nothing() {
    let mut g = grant(0, 1000, 100, 1000);
    assert_eq!(claim_amount(&mut g, 500), Ok(500));
    assert_eq!(claim_amount(&mut g, 500), Err(ErrorCode::NothingToClaim));
    assert_eq!(g.withdrawn, 500);
}

#[test]
fn everything_is_vested_at_and_after_maturity() {
    let g = grant(0, 1000, 100, 777);
    assert_eq!(vested_amount(&g, 1000), Ok(777));
    assert_eq!(vested_amount(&g, i64::MAX), Ok(777));
}

#[test]
fn vested_share_is_proportional_and_rounds_down() {
    let g = grant(0, 1000, 0, 1000);
    assert_eq!(vested_amount(&g, 250), Ok(250));
    let odd = grant(0, 3, 0, 10);
    assert_eq!(vested_amount(&odd, 1), Ok(3));
    assert_eq!(vested_amount(&odd, 2), Ok(6));
}

#[test]
fn vested_share_never_decreases_over_time() {
    let g = grant(100, 1100, 0, 999);
    let mut last: u64 = 0;
    for now in [0, 50, 100, 101, 350, 600, 850, 1099, 1100, 2000] {
        let v = vested_amount(&g, now).unwrap();
        assert!(v >= last);
        last = v;
    }
    assert_eq!(last, 999);
}

#[test]
fn nothing_vests_before_the_start() {
    let g = grant(500, 1500, 0, 1000);
    assert_eq!(vested_amount(&g, 0), Ok(0));
    assert_eq!(vested_amount(&g, 500), Ok(0));
    assert_eq!(claimable_amount(&g, 400), Err(ErrorCode::NothingToClaim));
}

#[test]
fn recording_a_withdrawal_moves_only_the_counter() {
    let mut g = grant(0, 1000, 0, 1000);
    record_withdrawal(&mut g, 250);
    assert_eq!(g.withdrawn, 250);
    record_withdrawal(&mut g, 250);
    assert_eq!(g.withdrawn, 500);
    assert_eq!(g.total_amount, 1000);
    assert_eq!(g.start_time, 0);
    assert_eq!(g.end_time, 1000);
}

#[test]
fn claimable_amount_leaves_the_grant_alone() {
    let g = grant(0, 1000, 0, 1000);
    assert_eq!(claimable_amount(&g, 600), Ok(600));
    assert_eq!(g.withdrawn, 0);
    assert_eq!(claimable_amount(&g, 600), Ok(600));
}

#[test]
fn treasury_authority_matches_the_ledger_derivation() {
    let program = addr(9);
    let program_id = anchor_lang::prelude::Pubkey::new_from_array(program.bytes);
    let (expected, expected_bump) = anchor_lang::prelude::Pubkey::find_program_address(
        &[b"vesting_treasury", b"acme corp"],
        &program_id,
    );
    let (derived, bump) = derive_treasury_authority("acme corp", &program).unwrap();
    assert_eq!(derived.bytes, expected.to_bytes());
    assert_eq!(bump, expected_bump);
}

#[test]
fn vesting_account_address_matches_the_ledger_derivation() {
    let program = addr(9);
    let program_id = anchor_lang::prelude::Pubkey::new_from_array(program.bytes);
    let (expected, expected_bump) =
        anchor_lang::prelude::Pubkey::find_program_address(&[b"acme corp"], &program_id);
    let (derived, bump) = derive_vesting_account_address("acme corp", &program).unwrap();
    assert_eq!(derived.bytes, expected.to_bytes());
    assert_eq!(bump, expected_bump);
    let (other, _) = derive_vesting_account_address("other name", &program).unwrap();
    assert_ne!(other.bytes, expected.to_bytes());
}
