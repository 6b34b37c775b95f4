use vstd::prelude::*;

use crate::pubkey::Pubkey;
use crate::seeds::seed_list;

verus! {

/// Names what `Pubkey::try_find_program_address` of solana_program gives for
/// a list of seeds and a program id: the program address derived from the
/// seeds with the first bump seed, counting down from 255, whose address lies
/// off the ed25519 curve, together with that bump; or nothing.
pub uninterp spec fn found_program_address(seeds: Seq<Seq<u8>>, program_id: Seq<u8>) -> Option<
    (Seq<u8>, u8),
>;

/// The address and bump of `found`, by their bytes.
pub open spec fn found_view(found: Option<(Pubkey, u8)>) -> Option<(Seq<u8>, u8)> {
    match found {
        Some(f) => Some((f.0@, f.1)),
        None => None,
    }
}

/// Calls `anchor_lang::prelude::Pubkey::try_find_program_address` (the
/// `Pubkey` of solana_program). Claimed of it: its result is the one named by
/// `found_program_address` for these seeds and this program id, and, as its
/// source shows, it finds nothing where the seeds and the bump seed together
/// would be more than 16, or where a seed is longer than 32 bytes.
#[verifier::external_body]
pub(crate) fn try_find_program_address(seeds: &Vec<Vec<u8>>, program_id: &Pubkey) -> (found:
    Option<(Pubkey, u8)>)
    ensures
        found_view(found) == found_program_address(seed_list(seeds@), program_id@),
        seeds@.len() >= 16 ==> found is None,
        (exists|i: int| 0 <= i < seeds@.len() && seeds@[i]@.len() > 32) ==> found is None,
{
    let seed_refs: Vec<&[u8]> = seeds.iter().map(|s| s.as_slice()).collect();
    let pid = anchor_lang::prelude::Pubkey::new_from_array(program_id.bytes);
    match anchor_lang::prelude::Pubkey::try_find_program_address(&seed_refs, &pid) {
        Some((key, bump)) => Some((Pubkey { bytes: key.to_bytes() }, bump)),
        None => None,
    }
}

} // verus!
