//! The program's instructions, by the names under which clients call them.
use vstd::prelude::*;

use crate::cpi::{ApproveCall, CreateTransactionCall};
use crate::error::NamaphError;
use crate::instructions::add_membership::{
    membership_added, AddMembershipAndCreateTransactionCpi,
};
use crate::instructions::approve_cpi::{approved, ApproveCpi};
use crate::instructions::create_text_topic::{text_topic_created, CreateTextTopic};
use crate::instructions::create_transaction::{transaction_created, CreateTransactionCpi};
use crate::instructions::create_treasury::{treasury_created, CreateTreasury};
use crate::instructions::delete_membership::{
    removal_proposed, DeleteMembershipAndCreateTransactionCpi,
};
use crate::instructions::init::{initialize_started, Init, InitPending};
use crate::instructions::spend::{spent, Spend};
use crate::instructions::update_text_topic::{text_body_updated, UpdateTextTopic};
use crate::instructions::update_topology::{topology_updated, UpdateTopology};
use crate::instructions::update_url_topic::{url_updated, UpdateUrlTopic};
use crate::instructions::{
    add_membership, approve_cpi, create_text_topic, create_transaction as create_transaction_ix,
    create_treasury as create_treasury_ix, delete_membership, init, spend as spend_ix,
    update_text_topic as update_text_topic_ix, update_topology as update_topology_ix,
    update_url_topic as update_url_topic_ix,
};
use crate::model::TransactionAccountCpi;
use crate::pubkey::Pubkey;

verus! {

/// Starts a multisig with its first member and its topology; see
/// `init::handler`, and `init::complete` for the rest.
pub fn initialize(ctx: &mut Init, username: String, map_name: String, capacity: u8, nonce: u8) -> (res:
    Result<InitPending, NamaphError>)
    ensures
        initialize_started(*old(ctx), *final(ctx), username, map_name, capacity, nonce, res),
{
    init::handler(ctx, username, map_name, capacity, nonce)
}

/// Sets cell `id` of the topology to `value`.
pub fn update_topology(ctx: &mut UpdateTopology, id: u8, value: u8)
    requires
        id < old(ctx).topology.values@.len(),
    ensures
        topology_updated(*old(ctx), *final(ctx), id, value),
{
    update_topology_ix::handler(ctx, id, value)
}

/// Adds a member and proposes the transaction that makes it an owner.
pub fn add_membership_and_create_transaction(
    ctx: &mut AddMembershipAndCreateTransactionCpi,
    username: String,
    user: Pubkey,
    pid: Pubkey,
    accs: Vec<TransactionAccountCpi>,
    data: Vec<u8>,
) -> (res: Result<CreateTransactionCall, NamaphError>)
    ensures
        membership_added(*old(ctx), *final(ctx), username, user, pid, accs@, data@, res),
{
    add_membership::handler(ctx, username, user, pid, accs, data)
}

/// Proposes the transaction that removes a member.
pub fn delete_membership_and_create_transaction(
    ctx: &DeleteMembershipAndCreateTransactionCpi,
    pid: Pubkey,
    accs: Vec<TransactionAccountCpi>,
    data: Vec<u8>,
) -> (call: CreateTransactionCall)
    ensures
        removal_proposed(*ctx, pid, accs@, data@, call),
{
    delete_membership::handler(ctx, pid, accs, data)
}

/// Records who proposes a transaction and when, and proposes it.
pub fn create_transaction(
    ctx: &mut CreateTransactionCpi,
    pid: Pubkey,
    accs: Vec<TransactionAccountCpi>,
    data: Vec<u8>,
    unix_timestamp: i64,
) -> (res: Result<CreateTransactionCall, NamaphError>)
    ensures
        transaction_created(*old(ctx), *final(ctx), pid, accs@, data@, unix_timestamp, res),
{
    create_transaction_ix::handler(ctx, pid, accs, data, unix_timestamp)
}

/// Approves a transaction as a member.
pub fn approve(ctx: &ApproveCpi) -> (call: ApproveCall)
    ensures
        approved(*ctx, call),
{
    approve_cpi::handler(ctx)
}

/// Creates a treasury of the multisig.
pub fn create_treasury(ctx: &mut CreateTreasury, treasury_name: String, authority: Pubkey) -> (res:
    Result<(), NamaphError>)
    ensures
        treasury_created(*old(ctx), *final(ctx), treasury_name, authority, res),
{
    create_treasury_ix::handle(ctx, treasury_name, authority)
}

/// Pays `amount` lamports out of a treasury.
pub fn spend(ctx: &mut Spend, amount: u64) -> (res: Result<(), NamaphError>)
    requires
        old(ctx).treasury_lamports > amount ==> old(ctx).to_lamports + amount <= u64::MAX,
    ensures
        spent(*old(ctx), *final(ctx), amount, res),
{
    spend_ix::handler(ctx, amount)
}

/// Points a url topic at another url.
pub fn update_url_topic(ctx: &mut UpdateUrlTopic, _proposer: Pubkey, _title: String, url: String) -> (res:
    Result<(), NamaphError>)
    ensures
        url_updated(*old(ctx), *final(ctx), url, res),
{
    update_url_topic_ix::handle(ctx, _proposer, _title, url)
}

/// Creates a text topic and proposes a transaction.
pub fn create_text_topic(
    ctx: &mut CreateTextTopic,
    title: String,
    authority: Pubkey,
    pid: Pubkey,
    accs: Vec<TransactionAccountCpi>,
    data: Vec<u8>,
) -> (res: Result<CreateTransactionCall, NamaphError>)
    ensures
        text_topic_created(*old(ctx), *final(ctx), title, authority, pid, accs@, data@, res),
{
    create_text_topic::handle(ctx, title, authority, pid, accs, data)
}

/// Replaces the body of a text topic; the proposer and the title are not
/// read.
pub fn update_text_topic(ctx: &mut UpdateTextTopic, _proposer: Pubkey, _title: String, body: String) -> (res:
    Result<(), NamaphError>)
    ensures
        text_body_updated(*old(ctx), *final(ctx), body, res),
{
    update_text_topic_ix::handle(ctx, body)
}

} // verus!
