//! Derivation of the storage address of a poll or a candidate from its keys.

use anchor_lang::solana_program::pubkey::Pubkey;
use vstd::bytes::{spec_u64_to_le_bytes, u64_to_le_bytes};
use vstd::prelude::*;
use vstd::slice::slice_to_vec;
use vstd::utf8::encode_utf8;

verus! {

/// The address, and its bump seed, that the program `program_id` derives
/// from `seeds`, or `None` where no bump seed gives an address off the curve.
pub uninterp spec fn program_address(seeds: Seq<Seq<u8>>, program_id: Seq<u8>) -> Option<
    (Seq<u8>, u8),
>;

/// The seeds of a poll: the little-endian bytes of its id.
pub open spec fn poll_seeds(poll_id: u64) -> Seq<Seq<u8>> {
    seq![spec_u64_to_le_bytes(poll_id)]
}

/// The seeds of a candidate: the poll's seed, then the UTF-8 bytes of its name.
pub open spec fn candidate_seeds(poll_id: u64, candidate_name: Seq<char>) -> Seq<Seq<u8>> {
    seq![spec_u64_to_le_bytes(poll_id), encode_utf8(candidate_name)]
}

/// A derived address and bump seed as plain values.
pub open spec fn found_view(found: Option<([u8; 32], u8)>) -> Option<(Seq<u8>, u8)> {
    match found {
        Some((key, bump)) => Some((key@, bump)),
        None => None,
    }
}

/// The bytes of each seed.
pub open spec fn seeds_view(seeds: Seq<Vec<u8>>) -> Seq<Seq<u8>> {
    seeds.map_values(|s: Vec<u8>| s@)
}

/// Relies on `Pubkey::try_find_program_address` of solana-program: the bump
/// search is a function of the seeds and the program id alone.
#[verifier::external_body]
fn find_program_address(seeds: &Vec<Vec<u8>>, program_id: &[u8; 32]) -> (r: Option<([u8; 32], u8)>)
    ensures
        found_view(r) == program_address(seeds_view(seeds@), program_id@),
{
    let slices: Vec<&[u8]> = seeds.iter().map(|s| s.as_slice()).collect();
    Pubkey::try_find_program_address(&slices, &Pubkey::new_from_array(*program_id)).map(
        |(key, bump)| (key.to_bytes(), bump),
    )
}

/// Where the poll `poll_id` of the program `program_id` is stored.
pub fn poll_address(program_id: &[u8; 32], poll_id: u64) -> (r: Option<([u8; 32], u8)>)
    ensures
        found_view(r) == program_address(poll_seeds(poll_id), program_id@),
{
    let mut seeds: Vec<Vec<u8>> = Vec::new();
    seeds.push(u64_to_le_bytes(poll_id));
    assert(seeds_view(seeds@) =~= poll_seeds(poll_id));
    find_program_address(&seeds, program_id)
}

/// Where the candidate `candidate_name` of the poll `poll_id` is stored.
pub fn candidate_address(program_id: &[u8; 32], poll_id: u64, candidate_name: &str) -> (r: Option<
    ([u8; 32], u8),
>)
    ensures
        found_view(r) == program_address(candidate_seeds(poll_id, candidate_name@), program_id@),
{
    let mut seeds: Vec<Vec<u8>> = Vec::new();
    seeds.push(u64_to_le_bytes(poll_id));
    seeds.push(slice_to_vec(candidate_name.as_bytes()));
    assert(seeds_view(seeds@) =~= candidate_seeds(poll_id, candidate_name@));
    find_program_address(&seeds, program_id)
}

} // verus!
