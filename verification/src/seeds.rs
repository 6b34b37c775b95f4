use vstd::prelude::*;
use vstd::string::StringSliceAdditionalSpecFns;

use crate::pubkey::Pubkey;
use crate::util::fitted;

verus! {

/// The byte strings held in a list of seeds.
pub open spec fn seed_list(seeds: Seq<Vec<u8>>) -> Seq<Seq<u8>> {
    seeds.map_values(|s: Vec<u8>| s@)
}

/// A program address may be derived from `seeds` and one more bump seed:
/// with the bump they are at most 16, and none is longer than 32 bytes.
pub open spec fn within_seed_limits(seeds: Seq<Seq<u8>>) -> bool {
    &&& seeds.len() < 16
    &&& forall|i: int| 0 <= i < seeds.len() ==> #[trigger] seeds[i].len() <= 32
}

/// The bytes of "membership".
pub open spec fn membership_tag() -> Seq<u8> {
    seq![109u8, 101, 109, 98, 101, 114, 115, 104, 105, 112]
}

/// The bytes of "topology".
pub open spec fn topology_tag() -> Seq<u8> {
    seq![116u8, 111, 112, 111, 108, 111, 103, 121]
}

/// The bytes of "treasury".
pub open spec fn treasury_tag() -> Seq<u8> {
    seq![116u8, 114, 101, 97, 115, 117, 114, 121]
}

/// The bytes of "text".
pub open spec fn text_tag() -> Seq<u8> {
    seq![116u8, 101, 120, 116]
}

/// The bytes of "url".
pub open spec fn url_tag() -> Seq<u8> {
    seq![117u8, 114, 108]
}

/// The bytes of "transaction_meta".
pub open spec fn transaction_meta_tag() -> Seq<u8> {
    seq![116u8, 114, 97, 110, 115, 97, 99, 116, 105, 111, 110, 95, 109, 101, 116, 97]
}

/// Seeds of the address of the membership of `wallet` in `multisig`.
pub open spec fn membership_seeds(multisig: Seq<u8>, wallet: Seq<u8>) -> Seq<Seq<u8>> {
    seq![membership_tag(), multisig, wallet]
}

/// Seeds of the address of a membership known by its wallet alone, as the
/// first member's membership is created and as approvals and removals find it.
pub open spec fn wallet_membership_seeds(wallet: Seq<u8>) -> Seq<Seq<u8>> {
    seq![membership_tag(), wallet]
}

/// Seeds of the address of the topology named `map_name`.
pub open spec fn topology_seeds(map_name: &str) -> Seq<Seq<u8>> {
    seq![topology_tag(), fitted(map_name.spec_bytes())]
}

/// Seeds of the address of the treasury of `multisig` named `name`.
pub open spec fn treasury_seeds(multisig: Seq<u8>, name: &str) -> Seq<Seq<u8>> {
    seq![treasury_tag(), multisig, fitted(name.spec_bytes())]
}

/// Seeds of the address of the text topic of `multisig` titled `title`.
pub open spec fn text_topic_seeds(multisig: Seq<u8>, title: &str) -> Seq<Seq<u8>> {
    seq![text_tag(), multisig, fitted(title.spec_bytes())]
}

/// Seeds of the address of the url topic of `multisig` titled `title`.
pub open spec fn url_topic_seeds(multisig: Seq<u8>, title: &str) -> Seq<Seq<u8>> {
    seq![url_tag(), multisig, fitted(title.spec_bytes())]
}

/// Seeds of the address of the record kept for `transaction`.
pub open spec fn transaction_meta_seeds(transaction: Seq<u8>) -> Seq<Seq<u8>> {
    seq![transaction_meta_tag(), transaction]
}

/// Seeds of the multisig signer: the multisig's address alone.
pub open spec fn multisig_signer_seeds(multisig: Seq<u8>) -> Seq<Seq<u8>> {
    seq![multisig]
}

fn membership_tag_bytes() -> (tag: Vec<u8>)
    ensures
        tag@ == membership_tag(),
{
    let tag: Vec<u8> = vec![109u8, 101, 109, 98, 101, 114, 115, 104, 105, 112];
    assert(tag@ =~= membership_tag());
    tag
}

fn bump_seed(bump: u8) -> (seed: Vec<u8>)
    ensures
        seed@ == seq![bump],
{
    let mut seed: Vec<u8> = Vec::new();
    seed.push(bump);
    assert(seed@ =~= seq![bump]);
    seed
}

/// The seeds with which the program signs for the membership of `wallet` in
/// `multisig` whose bump is `bump`.
pub fn membership_signer_seeds(multisig: &Pubkey, wallet: &Pubkey, bump: u8) -> (seeds: Vec<
    Vec<u8>,
>)
    ensures
        seed_list(seeds@) == membership_seeds(multisig@, wallet@).push(seq![bump]),
{
    let mut seeds: Vec<Vec<u8>> = Vec::new();
    seeds.push(membership_tag_bytes());
    seeds.push(multisig.to_seed());
    seeds.push(wallet.to_seed());
    seeds.push(bump_seed(bump));
    assert(seed_list(seeds@) =~= membership_seeds(multisig@, wallet@).push(seq![bump]));
    seeds
}

/// The seeds with which the program signs for the membership known by
/// `wallet` alone whose bump is `bump`.
pub fn wallet_membership_signer_seeds(wallet: &Pubkey, bump: u8) -> (seeds: Vec<Vec<u8>>)
    ensures
        seed_list(seeds@) == wallet_membership_seeds(wallet@).push(seq![bump]),
{
    let mut seeds: Vec<Vec<u8>> = Vec::new();
    seeds.push(membership_tag_bytes());
    seeds.push(wallet.to_seed());
    seeds.push(bump_seed(bump));
    assert(seed_list(seeds@) =~= wallet_membership_seeds(wallet@).push(seq![bump]));
    seeds
}

/// The seeds of the multisig signer of `multisig`.
pub fn multisig_signer_seed_list(multisig: &Pubkey) -> (seeds: Vec<Vec<u8>>)
    ensures
        seed_list(seeds@) == multisig_signer_seeds(multisig@),
{
    let mut seeds: Vec<Vec<u8>> = Vec::new();
    seeds.push(multisig.to_seed());
    assert(seed_list(seeds@) =~= multisig_signer_seeds(multisig@));
    seeds
}

} // verus!
