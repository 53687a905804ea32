use vstd::prelude::*;

use vstd::string::StrSliceExecFns;
use vstd::utf8::encode_utf8;

use crate::account::Address;

verus! {

/// The address and bump seed that the ledger's deterministic derivation
/// yields for the given seeds under the given program, or nothing in the
/// statistically improbable event that no viable bump seed exists. A pure
/// function of its arguments: re-deriving from the same inputs always gives
/// the same tag, which is why tag equality can serve as proof of authority.
pub uninterp spec fn derived_address(seeds: Seq<Seq<u8>>, program: Seq<u8>) -> Option<(Seq<u8>, u8)>;

/// A derivation outcome as byte sequences, for stating contracts.
pub open spec fn derivation_view(r: Option<(Address, u8)>) -> Option<(Seq<u8>, u8)> {
    match r {
        Some((address, bump)) => Some((address@, bump)),
        None => None,
    }
}

/// Relies on `Pubkey::try_find_program_address` (solana-pubkey, re-exported
/// through anchor_lang's prelude): finds a program-derived address and its
/// bump seed, a deterministic function of the seeds and the program id alone,
/// returning `None` only when no viable bump seed exists.
#[verifier::external_body]
fn try_find_pda(seeds: &Vec<Vec<u8>>, program: &Address) -> (r: Option<(Address, u8)>)
    ensures
        derivation_view(r) == derived_address(seeds.deep_view(), program@),
{
    let seed_slices: Vec<&[u8]> = seeds.iter().map(|s| s.as_slice()).collect();
    let program_id = anchor_lang::prelude::Pubkey::new_from_array(program.bytes);
    anchor_lang::prelude::Pubkey::try_find_program_address(&seed_slices, &program_id)
        .map(|(address, bump)| (Address { bytes: address.to_bytes() }, bump))
}

/// Seed bytes of the namespace under which treasury holding accounts and
/// their spending authority are named.
pub open spec fn treasury_namespace() -> Seq<u8> {
    encode_utf8("vesting_treasury"@)
}

/// The canonical address of the vesting record named `company_name` under
/// `program`, with its bump seed; the record's address is derived from the
/// name alone, which is what makes the name a unique key.
pub fn derive_vesting_account_address(company_name: &str, program: &Address) -> (r: Option<
    (Address, u8),
>)
    ensures
        derivation_view(r) == derived_address(seq![encode_utf8(company_name@)], program@),
{
    let mut seeds: Vec<Vec<u8>> = Vec::new();
    seeds.push(company_name.as_bytes_vec());
    proof {
        assert(seeds.deep_view() =~~= seq![encode_utf8(company_name@)]);
    }
    try_find_pda(&seeds, program)
}

/// The treasury holding account's canonical address and spending authority
/// for the vesting record named `company_name` under `program`, derived from
/// the treasury namespace and the name. No secret is stored for this
/// authority: the pair of public inputs is all it takes to re-derive the tag,
/// and the ledger's access control restricts who may spend under it.
pub fn derive_treasury_authority(company_name: &str, program: &Address) -> (r: Option<
    (Address, u8),
>)
    ensures
        derivation_view(r) == derived_address(
            seq![treasury_namespace(), encode_utf8(company_name@)],
            program@,
        ),
{
    let mut seeds: Vec<Vec<u8>> = Vec::new();
    seeds.push("vesting_treasury".as_bytes_vec());
    seeds.push(company_name.as_bytes_vec());
    proof {
        assert(seeds.deep_view() =~~= seq![treasury_namespace(), encode_utf8(company_name@)]);
    }
    try_find_pda(&seeds, program)
}

} // verus!
