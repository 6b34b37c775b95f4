//! Properties of the program that span its instructions and accounts.
use vstd::prelude::*;

use crate::cpi::{ApproveCall, CreateTransactionCall};
use crate::error::NamaphError;
use crate::instructions::add_membership::{
    membership_added, AddMembershipAndCreateTransactionCpi,
};
use crate::instructions::approve_cpi::{approved, ApproveCpi};
use crate::instructions::create_transaction::{transaction_created, CreateTransactionCpi};
use crate::instructions::init::{initialize_completed, initialize_started, Init, InitPending};
use crate::instructions::update_topology::{signed_by_authority, topology_updated, UpdateTopology};
use crate::pda::found_program_address;
use crate::model::text::TextTopic;
use crate::model::url::UrlTopic;
use crate::model::TransactionAccountCpi;
use crate::pubkey::Pubkey;
use crate::seeds::{
    membership_seeds, multisig_signer_seeds, seed_list, text_topic_seeds, topology_seeds,
    transaction_meta_seeds, treasury_seeds, url_topic_seeds, wallet_membership_seeds,
    within_seed_limits,
};

verus! {

/// Every account address the program declares is derived from seeds that
/// program addresses accept, whatever the names in them: names are cut to
/// 32 bytes before they become seeds.
pub proof fn declared_seeds_are_within_limits(
    multisig: Pubkey,
    wallet: Pubkey,
    transaction: Pubkey,
    name: &str,
)
    ensures
        within_seed_limits(membership_seeds(multisig@, wallet@)),
        within_seed_limits(wallet_membership_seeds(wallet@)),
        within_seed_limits(topology_seeds(name)),
        within_seed_limits(treasury_seeds(multisig@, name)),
        within_seed_limits(text_topic_seeds(multisig@, name)),
        within_seed_limits(url_topic_seeds(multisig@, name)),
        within_seed_limits(transaction_meta_seeds(transaction@)),
        within_seed_limits(multisig_signer_seeds(multisig@)),
{
}

/// The multisig alone governs its topology: `initialize` makes the multisig
/// signer (the program address the multisig program derives from the
/// multisig) the topology's authority, so an update that passes the
/// topology's authority check is signed by the multisig signer, and it
/// changes the one cell it names and nothing else.
pub proof fn only_the_multisig_updates_its_topology(
    old_init: Init,
    started: Init,
    username: String,
    map_name: String,
    capacity: u8,
    nonce: u8,
    start: Result<InitPending, NamaphError>,
    done: Init,
    finish: Result<(), NamaphError>,
    old_update: UpdateTopology,
    new_update: UpdateTopology,
    id: u8,
    value: u8,
)
    requires
        initialize_started(old_init, started, username, map_name, capacity, nonce, start),
        start is Ok,
        initialize_completed(started, done, start->Ok_0, finish),
        finish is Ok,
        old_update.topology == done.topology,
        signed_by_authority(old_update),
        topology_updated(old_update, new_update, id, value),
    ensures
        found_program_address(multisig_signer_seeds(old_init.multisig@), old_init.multisig_program@)
            is Some,
        old_update.authority@ == (found_program_address(
            multisig_signer_seeds(old_init.multisig@),
            old_init.multisig_program@,
        )->0).0,
        new_update.topology.authority == done.topology.authority,
        new_update.topology.multisig == old_init.multisig,
        new_update.topology.values@ == done.topology.values@.update(id as int, value),
{
}

/// A text topic whose title and body are within their limits fits in the
/// space its account is given.
pub proof fn text_topic_fits(topic: TextTopic)
    requires
        topic.well_formed(),
    ensures
        topic.encoded_len() <= TextTopic::SIZE,
{
}

/// A url topic whose title and url are within their limits fits in the space
/// its account is given.
pub proof fn url_topic_fits(topic: UrlTopic)
    requires
        topic.well_formed(),
    ensures
        topic.encoded_len() <= UrlTopic::SIZE,
{
}

/// The first member, whose membership `initialize` creates at the address
/// derived from its wallet alone, approves with the seeds of that address and
/// its bump.
pub proof fn first_member_approves_as_its_account(
    old_init: Init,
    new_init: Init,
    username: String,
    map_name: String,
    capacity: u8,
    nonce: u8,
    res: Result<InitPending, NamaphError>,
    ctx: ApproveCpi,
    call: ApproveCall,
)
    requires
        initialize_started(old_init, new_init, username, map_name, capacity, nonce, res),
        res is Ok,
        ctx.membership == new_init.membership,
        approved(ctx, call),
    ensures
        seed_list(call.signer_seeds@) == wallet_membership_seeds(old_init.payer@).push(
            seq![old_init.membership_bump->0],
        ),
{
}

/// A member that `add_membership_and_create_transaction` creates lives at
/// the address derived from the multisig and its wallet, yet `approve` signs
/// for it with other seeds: those of its wallet alone.
pub proof fn added_member_approves_with_other_seeds(
    old_ctx: AddMembershipAndCreateTransactionCpi,
    new_ctx: AddMembershipAndCreateTransactionCpi,
    username: String,
    user: Pubkey,
    pid: Pubkey,
    accs: Seq<TransactionAccountCpi>,
    data: Seq<u8>,
    res: Result<CreateTransactionCall, NamaphError>,
    ctx: ApproveCpi,
    call: ApproveCall,
)
    requires
        membership_added(old_ctx, new_ctx, username, user, pid, accs, data, res),
        res is Ok,
        ctx.membership == new_ctx.membership,
        approved(ctx, call),
    ensures
        seed_list(call.signer_seeds@) != membership_seeds(old_ctx.multisig@, user@).push(
            seq![old_ctx.membership_bump->0],
        ),
{
    assert(seed_list(call.signer_seeds@).len() == 3);
}

/// The record that `create_transaction` keeps names the very account that
/// proposes the transaction.
pub proof fn recorded_proposer_proposes(
    old_ctx: CreateTransactionCpi,
    new_ctx: CreateTransactionCpi,
    pid: Pubkey,
    accs: Seq<TransactionAccountCpi>,
    data: Seq<u8>,
    unix_timestamp: i64,
    res: Result<CreateTransactionCall, NamaphError>,
)
    requires
        transaction_created(old_ctx, new_ctx, pid, accs, data, unix_timestamp, res),
        res is Ok,
    ensures
        new_ctx.transaction_meta.proposer == res->Ok_0.proposer,
        new_ctx.transaction_meta.timestamp == unix_timestamp,
{
}

} // verus!
