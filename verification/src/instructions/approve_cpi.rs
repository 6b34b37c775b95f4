use vstd::prelude::*;

use crate::cpi::ApproveCall;
use crate::model::membership::Membership;
use crate::pubkey::Pubkey;
use crate::seeds::{seed_list, wallet_membership_seeds, wallet_membership_signer_seeds};

verus! {

/// What `approve` reads: the multisig, the transaction to approve, and the
/// approving member and its address.
#[derive(Clone, Debug, PartialEq, Eq)]
pub struct ApproveCpi {
    pub multisig: Pubkey,
    pub transaction: Pubkey,
    pub membership: Membership,
    pub membership_key: Pubkey,
}

/// The approval `call` is the one `approve` makes from `ctx`.
pub open spec fn approved(ctx: ApproveCpi, call: ApproveCall) -> bool {
    &&& call.multisig == ctx.multisig
    &&& call.transaction == ctx.transaction
    &&& call.owner == ctx.membership_key
    &&& seed_list(call.signer_seeds@) == wallet_membership_seeds(ctx.membership.wallet@).push(
        seq![ctx.membership.bump],
    )
}

/// Approves the transaction as the member, for whom the program signs by
/// its wallet alone.
pub fn handler(ctx: &ApproveCpi) -> (call: ApproveCall)
    ensures
        approved(*ctx, call),
{
    let signer_seeds = wallet_membership_signer_seeds(&ctx.membership.wallet, ctx.membership.bump);
    ApproveCall {
        multisig: ctx.multisig,
        transaction: ctx.transaction,
        owner: ctx.membership_key,
        signer_seeds,
    }
}

} // verus!
