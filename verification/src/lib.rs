//! A linear token-vesting schedule with a cliff, verified.
//!
//! An issuing party locks a fund on behalf of a beneficiary; after a cliff
//! date the beneficiary may withdraw a monotonically growing,
//! time-proportional share of the fund, up to the full amount by the maturity
//! date. This crate holds the records, the deterministic authority
//! derivation, and the claim computation; the surrounding ledger supplies
//! storage, the clock, and the transfer primitive.

mod account;
mod authority;
mod engine;
mod error;

pub use account::Address;
pub use account::EmployeeAccount;
pub use account::VestingAccount;
pub use account::MAX_COMPANY_NAME_LEN;
pub use account::create_employee_account;
pub use account::create_vesting_account;
pub use authority::derivation_view;
pub use authority::derive_treasury_authority;
pub use authority::derive_vesting_account_address;
pub use authority::derived_address;
pub use authority::treasury_namespace;
pub use engine::claim_amount;
pub use engine::claim_result;
pub use engine::claimable_amount;
pub use engine::elapsed_at;
pub use engine::grant_after_claim;
pub use engine::grant_after_claims;
pub use engine::lemma_claim_before_cliff;
pub use engine::lemma_claim_step_bounds;
pub use engine::lemma_claims_never_overdraw;
pub use engine::lemma_repeat_claim_finds_nothing;
pub use engine::lemma_vested_at_maturity;
pub use engine::lemma_vested_bounds;
pub use engine::lemma_vested_monotonic;
pub use engine::record_withdrawal;
pub use engine::vested_amount;
pub use engine::vested_at;
pub use engine::vested_overflows;
pub use engine::vested_result;
pub use engine::vesting_span;
pub use error::ErrorCode;
