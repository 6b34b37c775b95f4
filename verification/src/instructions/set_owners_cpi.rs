use vstd::prelude::*;

use crate::cpi::SetOwnersCall;
use crate::pubkey::Pubkey;
use crate::seeds::{multisig_signer_seed_list, multisig_signer_seeds, seed_list};

verus! {

/// What `set_owners` reads: the multisig and its signer.
#[derive(Clone, Debug, PartialEq, Eq)]
pub struct SetOwnersCpi {
    pub multisig: Pubkey,
    pub multisig_signer: Pubkey,
}

/// `call` is the one `set_owners` makes from `ctx` and `owners`.
pub open spec fn owners_set(ctx: SetOwnersCpi, owners: Seq<Pubkey>, call: SetOwnersCall) -> bool {
    &&& call.multisig == ctx.multisig
    &&& call.multisig_signer == ctx.multisig_signer
    &&& seed_list(call.signer_seeds@) == multisig_signer_seeds(ctx.multisig@)
    &&& call.owners@ == owners
}

/// Makes `owners` the owners of the multisig, signed for by the multisig
/// signer with the multisig's address as its one seed.
pub fn handler(ctx: &SetOwnersCpi, owners: Vec<Pubkey>) -> (call: SetOwnersCall)
    ensures
        owners_set(*ctx, owners@, call),
        call.multisig == ctx.multisig,
        call.multisig_signer == ctx.multisig_signer,
        seed_list(call.signer_seeds@) == multisig_signer_seeds(ctx.multisig@),
        call.owners@ == owners@,
{
    let signer_seeds = multisig_signer_seed_list(&ctx.multisig);
    SetOwnersCall {
        multisig: ctx.multisig,
        multisig_signer: ctx.multisig_signer,
        signer_seeds,
        owners,
    }
}

} // verus!
