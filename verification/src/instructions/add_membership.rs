use vstd::prelude::*;
use vstd::string::StrSliceExecFns;
use vstd::utf8::{is_ascii_chars, is_ascii_chars_encode_utf8};

use crate::cpi::{proposes, CreateTransactionCall};
use crate::error::NamaphError;
use crate::model::membership::Membership;
use crate::model::{to_transaction_accounts, TransactionAccountCpi};
use crate::pubkey::Pubkey;
use crate::seeds::{membership_seeds, membership_signer_seeds};

verus! {

/// What `add_membership_and_create_transaction` reads and writes: the
/// proposing member and its address, the multisig, the transaction account
/// to fill, the new membership, and the bump seed found for it.
#[derive(Clone, Debug, PartialEq, Eq)]
pub struct AddMembershipAndCreateTransactionCpi {
    pub proposer: Membership,
    pub proposer_key: Pubkey,
    pub multisig: Pubkey,
    pub transaction: Pubkey,
    pub membership: Membership,
    pub membership_bump: Option<u8>,
}

/// Adding a member takes the context from `old_ctx` to `new_ctx` and gives
/// `res`.
pub open spec fn membership_added(
    old_ctx: AddMembershipAndCreateTransactionCpi,
    new_ctx: AddMembershipAndCreateTransactionCpi,
    username: String,
    user: Pubkey,
    pid: Pubkey,
    accs: Seq<TransactionAccountCpi>,
    data: Seq<u8>,
    res: Result<CreateTransactionCall, NamaphError>,
) -> bool {
    if !(username@.len() < Membership::MAX_NAME_BYTES) {
        &&& res == Err::<CreateTransactionCall, NamaphError>(NamaphError::StringTooLong)
        &&& new_ctx == old_ctx
    } else {
        match old_ctx.membership_bump {
            None => {
                &&& res == Err::<CreateTransactionCall, NamaphError>(NamaphError::BumpMismatch)
                &&& new_ctx == (AddMembershipAndCreateTransactionCpi {
                    membership: (Membership { wallet: user, ..old_ctx.membership }),
                    ..old_ctx
                })
            },
            Some(bump) => {
                &&& res is Ok
                &&& new_ctx == (AddMembershipAndCreateTransactionCpi {
                    membership: (Membership {
                        wallet: user,
                        bump: bump,
                        username: username,
                        ..old_ctx.membership
                    }),
                    ..old_ctx
                })
                &&& proposes(
                    res->Ok_0,
                    old_ctx.multisig,
                    old_ctx.transaction,
                    old_ctx.proposer_key,
                    membership_seeds(old_ctx.multisig@, old_ctx.proposer.wallet@).push(
                        seq![old_ctx.proposer.bump],
                    ),
                    pid,
                    accs,
                    data,
                )
            },
        }
    }
}

/// Adds the member `user` named `username` and, as the proposer, proposes
/// the multisig transaction `data` of program `pid` over `accs` (as a rule,
/// the one that makes `user` an owner). The name is checked in characters.
pub fn handler(
    ctx: &mut AddMembershipAndCreateTransactionCpi,
    username: String,
    user: Pubkey,
    pid: Pubkey,
    accs: Vec<TransactionAccountCpi>,
    data: Vec<u8>,
) -> (res: Result<CreateTransactionCall, NamaphError>)
    ensures
        membership_added(*old(ctx), *final(ctx), username, user, pid, accs@, data@, res),
        res is Ok && is_ascii_chars(username@) ==> final(ctx).membership.encoded_len()
            <= Membership::SIZE,
{
    if !(username.as_str().unicode_len() < Membership::MAX_NAME_BYTES) {
        return Err(NamaphError::StringTooLong);
    }
    ctx.membership.wallet = user;
    let bump = match ctx.membership_bump {
        Some(b) => b,
        None => {
            return Err(NamaphError::BumpMismatch);
        },
    };
    ctx.membership.bump = bump;
    proof {
        if is_ascii_chars(username@) {
            is_ascii_chars_encode_utf8(username@);
        }
    }
    ctx.membership.username = username;

    let signer_seeds = membership_signer_seeds(&ctx.multisig, &ctx.proposer.wallet, ctx.proposer.bump);
    let accs = to_transaction_accounts(&accs);
    Ok(
        CreateTransactionCall {
            multisig: ctx.multisig,
            transaction: ctx.transaction,
            proposer: ctx.proposer_key,
            signer_seeds,
            pid,
            accs,
            data,
        },
    )
}

} // verus!
