use vstd::prelude::*;

use crate::cpi::{proposes, CreateTransactionCall};
use crate::error::NamaphError;
use crate::model::membership::Membership;
use crate::model::transaction_meta::TransactionMeta;
use crate::model::{to_transaction_accounts, TransactionAccountCpi};
use crate::pubkey::Pubkey;
use crate::seeds::{membership_seeds, membership_signer_seeds};

verus! {

/// What `create_transaction` reads and writes: the proposing member and its
/// address, the multisig, the transaction account to fill, the new record of
/// who proposed it and when, and the bump seed found for that record.
#[derive(Clone, Debug, PartialEq, Eq)]
pub struct CreateTransactionCpi {
    pub membership: Membership,
    pub membership_key: Pubkey,
    pub multisig: Pubkey,
    pub transaction: Pubkey,
    pub transaction_meta: TransactionMeta,
    pub transaction_meta_bump: Option<u8>,
}

/// Proposing a transaction takes the context from `old_ctx` to `new_ctx` and
/// gives `res`.
pub open spec fn transaction_created(
    old_ctx: CreateTransactionCpi,
    new_ctx: CreateTransactionCpi,
    pid: Pubkey,
    accs: Seq<TransactionAccountCpi>,
    data: Seq<u8>,
    unix_timestamp: i64,
    res: Result<CreateTransactionCall, NamaphError>,
) -> bool {
    match old_ctx.transaction_meta_bump {
        None => {
            &&& res == Err::<CreateTransactionCall, NamaphError>(NamaphError::BumpMismatch)
            &&& new_ctx == (CreateTransactionCpi {
                transaction_meta: (TransactionMeta {
                    proposer: old_ctx.membership_key,
                    timestamp: unix_timestamp,
                    ..old_ctx.transaction_meta
                }),
                ..old_ctx
            })
        },
        Some(bump) => {
            &&& res is Ok
            &&& new_ctx == (CreateTransactionCpi {
                transaction_meta: (TransactionMeta {
                    proposer: old_ctx.membership_key,
                    timestamp: unix_timestamp,
                    bump: bump,
                }),
                ..old_ctx
            })
            &&& proposes(
                res->Ok_0,
                old_ctx.multisig,
                old_ctx.transaction,
                old_ctx.membership_key,
                membership_seeds(old_ctx.multisig@, old_ctx.membership.wallet@).push(
                    seq![old_ctx.membership.bump],
                ),
                pid,
                accs,
                data,
            )
        },
    }
}

/// Records the proposer and the time `unix_timestamp` (the clock's, read by
/// the caller) and proposes, as that member, the multisig transaction `data`
/// of program `pid` over `accs`.
pub fn handler(
    ctx: &mut CreateTransactionCpi,
    pid: Pubkey,
    accs: Vec<TransactionAccountCpi>,
    data: Vec<u8>,
    unix_timestamp: i64,
) -> (res: Result<CreateTransactionCall, NamaphError>)
    ensures
        transaction_created(*old(ctx), *final(ctx), pid, accs@, data@, unix_timestamp, res),
        final(ctx).transaction_meta.encoded_len() == TransactionMeta::SIZE,
{
    ctx.transaction_meta.proposer = ctx.membership_key;
    ctx.transaction_meta.timestamp = unix_timestamp;
    let bump = match ctx.transaction_meta_bump {
        Some(b) => b,
        None => {
            return Err(NamaphError::BumpMismatch);
        },
    };
    ctx.transaction_meta.bump = bump;

    let signer_seeds = membership_signer_seeds(
        &ctx.multisig,
        &ctx.membership.wallet,
        ctx.membership.bump,
    );
    let accs = to_transaction_accounts(&accs);
    Ok(
        CreateTransactionCall {
            multisig: ctx.multisig,
            transaction: ctx.transaction,
            proposer: ctx.membership_key,
            signer_seeds,
            pid,
            accs,
            data,
        },
    )
}

} // verus!
