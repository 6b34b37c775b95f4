use vstd::prelude::*;

use crate::cpi::{proposes, CreateTransactionCall};
use crate::model::membership::Membership;
use crate::model::{to_transaction_accounts, TransactionAccountCpi};
use crate::pubkey::Pubkey;
use crate::seeds::{wallet_membership_seeds, wallet_membership_signer_seeds};

verus! {

/// What `delete_membership_and_create_transaction` reads: the proposing
/// member and its address, the multisig and the transaction account to fill.
/// (The membership to remove is closed as the instruction ends.)
#[derive(Clone, Debug, PartialEq, Eq)]
pub struct DeleteMembershipAndCreateTransactionCpi {
    pub proposer: Membership,
    pub proposer_key: Pubkey,
    pub multisig: Pubkey,
    pub transaction: Pubkey,
}

/// The proposal `call` is the one `delete_membership_and_create_transaction`
/// makes from `ctx` with `pid`, `accs` and `data`.
pub open spec fn removal_proposed(
    ctx: DeleteMembershipAndCreateTransactionCpi,
    pid: Pubkey,
    accs: Seq<TransactionAccountCpi>,
    data: Seq<u8>,
    call: CreateTransactionCall,
) -> bool {
    proposes(
        call,
        ctx.multisig,
        ctx.transaction,
        ctx.proposer_key,
        wallet_membership_seeds(ctx.proposer.wallet@).push(seq![ctx.proposer.bump]),
        pid,
        accs,
        data,
    )
}

/// Proposes, as the proposer, the multisig transaction `data` of program
/// `pid` over `accs` (as a rule, the one that drops the removed member from
/// the owners). The program signs for the proposer by its wallet alone.
pub fn handler(
    ctx: &DeleteMembershipAndCreateTransactionCpi,
    pid: Pubkey,
    accs: Vec<TransactionAccountCpi>,
    data: Vec<u8>,
) -> (call: CreateTransactionCall)
    ensures
        removal_proposed(*ctx, pid, accs@, data@, call),
{
    let signer_seeds = wallet_membership_signer_seeds(&ctx.proposer.wallet, ctx.proposer.bump);
    let accs = to_transaction_accounts(&accs);
    CreateTransactionCall {
        multisig: ctx.multisig,
        transaction: ctx.transaction,
        proposer: ctx.proposer_key,
        signer_seeds,
        pid,
        accs,
        data,
    }
}

} // verus!
