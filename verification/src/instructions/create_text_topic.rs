use vstd::prelude::*;
use vstd::utf8::encode_utf8;

use crate::cpi::{proposes, CreateTransactionCall};
use crate::error::NamaphError;
use crate::model::membership::Membership;
use crate::model::text::TextTopic;
use crate::model::{to_transaction_accounts, TransactionAccountCpi};
use crate::pubkey::Pubkey;
use crate::seeds::{membership_seeds, membership_signer_seeds};

verus! {

/// What `create_text_topic` reads and writes: the new topic, the multisig,
/// the proposing member and its address, the transaction account to fill,
/// and the bump seed found for the topic.
#[derive(Clone, Debug, PartialEq, Eq)]
pub struct CreateTextTopic {
    pub topic: TextTopic,
    pub multisig: Pubkey,
    pub proposer: Membership,
    pub proposer_key: Pubkey,
    pub transaction: Pubkey,
    pub topic_bump: Option<u8>,
}

/// Creating a text topic takes the context from `old_ctx` to `new_ctx` and
/// gives `res`.
pub open spec fn text_topic_created(
    old_ctx: CreateTextTopic,
    new_ctx: CreateTextTopic,
    title: String,
    authority: Pubkey,
    pid: Pubkey,
    accs: Seq<TransactionAccountCpi>,
    data: Seq<u8>,
    res: Result<CreateTransactionCall, NamaphError>,
) -> bool {
    if !(encode_utf8(title@).len() < TextTopic::MAX_TITLE_BYTES) {
        &&& res == Err::<CreateTransactionCall, NamaphError>(NamaphError::StringTooLong)
        &&& new_ctx == old_ctx
    } else {
        match old_ctx.topic_bump {
            None => {
                &&& res == Err::<CreateTransactionCall, NamaphError>(NamaphError::BumpMismatch)
                &&& new_ctx == (CreateTextTopic {
                    topic: (TextTopic { title: title, authority: authority, ..old_ctx.topic }),
                    ..old_ctx
                })
            },
            Some(bump) => {
                &&& res is Ok
                &&& new_ctx == (CreateTextTopic {
                    topic: (TextTopic {
                        title: title,
                        authority: authority,
                        bump: bump,
                        multisig: old_ctx.multisig,
                        ..old_ctx.topic
                    }),
                    ..old_ctx
                })
                &&& proposes(
                    res->Ok_0,
                    old_ctx.multisig,
                    old_ctx.transaction,
                    old_ctx.proposer_key,
                    membership_seeds(old_ctx.multisig@, old_ctx.proposer.wallet@).push(
                        seq![old_ctx.proposer.bump],
                    ),
                    pid,
                    accs,
                    data,
                )
            },
        }
    }
}

/// Creates the text topic titled `title` (checked in bytes) under
/// `authority` and proposes, as the proposer, the multisig transaction `data`
/// of program `pid` over `accs`.
pub fn handle(
    ctx: &mut CreateTextTopic,
    title: String,
    authority: Pubkey,
    pid: Pubkey,
    accs: Vec<TransactionAccountCpi>,
    data: Vec<u8>,
) -> (res: Result<CreateTransactionCall, NamaphError>)
    ensures
        text_topic_created(*old(ctx), *final(ctx), title, authority, pid, accs@, data@, res),
        res is Ok && encode_utf8(old(ctx).topic.body@).len() < TextTopic::MAX_BODY_BYTES ==> final(ctx).topic.well_formed(),
{
    if !(title.as_str().as_bytes().len() < TextTopic::MAX_TITLE_BYTES) {
        return Err(NamaphError::StringTooLong);
    }
    ctx.topic.title = title;
    ctx.topic.authority = authority;
    let bump = match ctx.topic_bump {
        Some(b) => b,
        None => {
            return Err(NamaphError::BumpMismatch);
        },
    };
    ctx.topic.bump = bump;
    ctx.topic.multisig = ctx.multisig;

    let signer_seeds = membership_signer_seeds(&ctx.multisig, &ctx.proposer.wallet, ctx.proposer.bump);
    let accs = to_transaction_accounts(&accs);
    Ok(
        CreateTransactionCall {
            multisig: ctx.multisig,
            transaction: ctx.transaction,
            proposer: ctx.proposer_key,
            signer_seeds,
            pid,
            accs,
            data,
        },
    )
}

} // verus!
