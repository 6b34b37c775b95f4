//! What each instruction does, stated directly over its inputs and results.
use vstd::prelude::*;
use vstd::utf8::encode_utf8;

use crate::cpi::{ApproveCall, CreateTransactionCall, SetOwnersCall};
use crate::error::NamaphError;
use crate::instructions::add_membership::{
    membership_added, AddMembershipAndCreateTransactionCpi,
};
use crate::instructions::approve_cpi::{approved, ApproveCpi};
use crate::instructions::create_text_topic::{text_topic_created, CreateTextTopic};
use crate::instructions::create_transaction::{transaction_created, CreateTransactionCpi};
use crate::instructions::create_treasury::{treasury_created, CreateTreasury};
use crate::instructions::delete_membership::{
    removal_proposed, DeleteMembershipAndCreateTransactionCpi,
};
use crate::instructions::init::{initialize_completed, initialize_started, Init, InitPending};
use crate::instructions::set_owners_cpi::{owners_set, SetOwnersCpi};
use crate::instructions::spend::{spent, Spend};
use crate::instructions::update_text_topic::{text_body_updated, UpdateTextTopic};
use crate::instructions::update_topology::{topology_updated, UpdateTopology};
use crate::instructions::update_url_topic::{url_updated, UpdateUrlTopic};
use crate::model::topology::topology_size;
use crate::model::{converted, TransactionAccount, TransactionAccountCpi};
use crate::pda::found_program_address;
use crate::pubkey::Pubkey;
use crate::seeds::{membership_seeds, membership_tag, seed_list, wallet_membership_seeds};
use crate::util::fitted;

verus! {

/// The bytes of the word "membership", the first seed of every membership.
pub open spec fn membership_word() -> Seq<u8> {
    seq![109u8, 101, 109, 98, 101, 114, 115, 104, 105, 112]
}

/// `seeds` are, in order, "membership", `multisig`, `wallet` and the one byte
/// `bump`.
pub open spec fn signs_for_membership(
    seeds: Seq<Vec<u8>>,
    multisig: Seq<u8>,
    wallet: Seq<u8>,
    bump: u8,
) -> bool {
    &&& seeds.len() == 4
    &&& seeds[0]@ == membership_word()
    &&& seeds[1]@ == multisig
    &&& seeds[2]@ == wallet
    &&& seeds[3]@ == seq![bump]
}

/// `seeds` are, in order, "membership", `wallet` and the one byte `bump`.
pub open spec fn signs_for_wallet_membership(seeds: Seq<Vec<u8>>, wallet: Seq<u8>, bump: u8) -> bool {
    &&& seeds.len() == 3
    &&& seeds[0]@ == membership_word()
    &&& seeds[1]@ == wallet
    &&& seeds[2]@ == seq![bump]
}

/// Every entry of `out` is the entry of `inp` at the same place, with the
/// same address and the same two flags.
pub open spec fn same_entries(out: Seq<TransactionAccount>, inp: Seq<TransactionAccountCpi>) -> bool {
    &&& out.len() == inp.len()
    &&& forall|i: int|
        0 <= i < inp.len() ==> {
            &&& (#[trigger] out[i]).pubkey == inp[i].pubkey
            &&& out[i].is_signer == inp[i].is_signer
            &&& out[i].is_writable == inp[i].is_writable
        }
}

/// A proposal carries the program id, the data and the account entries it
/// was given, unchanged.
pub open spec fn carries(
    call: CreateTransactionCall,
    pid: Pubkey,
    accs: Seq<TransactionAccountCpi>,
    data: Seq<u8>,
) -> bool {
    &&& call.pid == pid
    &&& call.data@ == data
    &&& same_entries(call.accs@, accs)
}

/// The byte strings of a list of seeds are those of its entries, in order.
proof fn seed_list_entries(seeds: Seq<Vec<u8>>)
    ensures
        seed_list(seeds).len() == seeds.len(),
        forall|i: int| 0 <= i < seeds.len() ==> #[trigger] seed_list(seeds)[i] == seeds[i]@,
{
}

/// Seeds listed as those of a membership's address and its bump are, one by
/// one, "membership", the multisig, the wallet and the bump.
proof fn membership_seed_entries(seeds: Seq<Vec<u8>>, multisig: Seq<u8>, wallet: Seq<u8>, bump: u8)
    requires
        seed_list(seeds) == membership_seeds(multisig, wallet).push(seq![bump]),
    ensures
        signs_for_membership(seeds, multisig, wallet, bump),
{
    seed_list_entries(seeds);
    let listed = membership_seeds(multisig, wallet).push(seq![bump]);
    assert(listed.len() == 4);
    assert(listed[0] == membership_tag());
    assert(listed[1] == multisig);
    assert(listed[2] == wallet);
    assert(listed[3] == seq![bump]);
    assert(membership_tag() =~= membership_word());
    assert(seeds[0]@ == seed_list(seeds)[0]);
    assert(seeds[1]@ == seed_list(seeds)[1]);
    assert(seeds[2]@ == seed_list(seeds)[2]);
    assert(seeds[3]@ == seed_list(seeds)[3]);
}

/// Seeds listed as those of a membership known by its wallet and its bump
/// are, one by one, "membership", the wallet and the bump.
proof fn wallet_membership_seed_entries(seeds: Seq<Vec<u8>>, wallet: Seq<u8>, bump: u8)
    requires
        seed_list(seeds) == wallet_membership_seeds(wallet).push(seq![bump]),
    ensures
        signs_for_wallet_membership(seeds, wallet, bump),
{
    seed_list_entries(seeds);
    let listed = wallet_membership_seeds(wallet).push(seq![bump]);
    assert(listed.len() == 3);
    assert(listed[0] == membership_tag());
    assert(listed[1] == wallet);
    assert(listed[2] == seq![bump]);
    assert(membership_tag() =~= membership_word());
    assert(seeds[0]@ == seed_list(seeds)[0]);
    assert(seeds[1]@ == seed_list(seeds)[1]);
    assert(seeds[2]@ == seed_list(seeds)[2]);
}

/// Entries handed over one by one in the multisig program's form keep their
/// addresses and flags.
proof fn converted_entries(out: Seq<TransactionAccount>, inp: Seq<TransactionAccountCpi>)
    requires
        out == inp.map_values(|a: TransactionAccountCpi| converted(a)),
    ensures
        same_entries(out, inp),
{
    assert forall|i: int| 0 <= i < inp.len() implies {
        &&& (#[trigger] out[i]).pubkey == inp[i].pubkey
        &&& out[i].is_signer == inp[i].is_signer
        &&& out[i].is_writable == inp[i].is_writable
    } by {
        assert(out[i] == converted(inp[i]));
    }
}

/// An account entry keeps its address and both of its flags when handed to
/// the multisig program.
pub proof fn conversion_keeps_entries(a: TransactionAccountCpi)
    ensures
        converted(a).pubkey == a.pubkey,
        converted(a).is_signer == a.is_signer,
        converted(a).is_writable == a.is_writable,
{
}

/// Names are cut only when longer than 32 bytes, and then to their first 32.
pub proof fn fitting_cuts_only_long_names(bytes: Seq<u8>)
    ensures
        bytes.len() <= 32 ==> fitted(bytes) == bytes,
        bytes.len() > 32 ==> fitted(bytes) == bytes.take(32),
{
}

/// A topology of `capacity` cells is given 114 bytes plus one per cell.
pub proof fn topology_space(capacity: int)
    ensures
        topology_size(capacity) == 114 + capacity,
{
}

/// Adding a member succeeds exactly when the name has fewer than 40
/// characters and the new account's bump was found; then the membership
/// holds `user`, `username` and that bump, and the proposal is made by the
/// proposer, signed with the seeds of the proposer's address in the
/// context's multisig, and carries `pid`, `data` and the entries unchanged.
pub proof fn adding_a_member(
    old_ctx: AddMembershipAndCreateTransactionCpi,
    new_ctx: AddMembershipAndCreateTransactionCpi,
    username: String,
    user: Pubkey,
    pid: Pubkey,
    accs: Seq<TransactionAccountCpi>,
    data: Seq<u8>,
    res: Result<CreateTransactionCall, NamaphError>,
)
    requires
        membership_added(old_ctx, new_ctx, username, user, pid, accs, data, res),
    ensures
        res is Ok <==> username@.len() < 40 && old_ctx.membership_bump is Some,
        username@.len() >= 40 ==> res == Err::<CreateTransactionCall, NamaphError>(
            NamaphError::StringTooLong,
        ) && new_ctx == old_ctx,
        username@.len() < 40 && old_ctx.membership_bump is None ==> res == Err::<
            CreateTransactionCall,
            NamaphError,
        >(NamaphError::BumpMismatch),
        res is Ok ==> {
            &&& new_ctx.membership.wallet == user
            &&& new_ctx.membership.username == username
            &&& new_ctx.membership.bump == old_ctx.membership_bump->0
            &&& new_ctx.membership.multisig == old_ctx.membership.multisig
            &&& new_ctx.proposer == old_ctx.proposer
            &&& new_ctx.multisig == old_ctx.multisig
            &&& res->Ok_0.multisig == old_ctx.multisig
            &&& res->Ok_0.transaction == old_ctx.transaction
            &&& res->Ok_0.proposer == old_ctx.proposer_key
            &&& signs_for_membership(
                res->Ok_0.signer_seeds@,
                old_ctx.multisig@,
                old_ctx.proposer.wallet@,
                old_ctx.proposer.bump,
            )
            &&& carries(res->Ok_0, pid, accs, data)
        },
{
    if res is Ok {
        membership_seed_entries(
            res->Ok_0.signer_seeds@,
            old_ctx.multisig@,
            old_ctx.proposer.wallet@,
            old_ctx.proposer.bump,
        );
        converted_entries(res->Ok_0.accs@, accs);
    }
}

/// Proposing a transaction always records the proposer's address and the
/// time; it succeeds exactly when the record's bump was found, and then the
/// proposal is made by that member, signed with the seeds of its address in
/// the context's multisig, and carries `pid`, `data` and the entries
/// unchanged.
pub proof fn proposing_a_transaction(
    old_ctx: CreateTransactionCpi,
    new_ctx: CreateTransactionCpi,
    pid: Pubkey,
    accs: Seq<TransactionAccountCpi>,
    data: Seq<u8>,
    unix_timestamp: i64,
    res: Result<CreateTransactionCall, NamaphError>,
)
    requires
        transaction_created(old_ctx, new_ctx, pid, accs, data, unix_timestamp, res),
    ensures
        res is Ok <==> old_ctx.transaction_meta_bump is Some,
        res is Err ==> res == Err::<CreateTransactionCall, NamaphError>(NamaphError::BumpMismatch),
        new_ctx.transaction_meta.proposer == old_ctx.membership_key,
        new_ctx.transaction_meta.timestamp == unix_timestamp,
        new_ctx.membership == old_ctx.membership,
        res is Ok ==> {
            &&& new_ctx.transaction_meta.bump == old_ctx.transaction_meta_bump->0
            &&& res->Ok_0.multisig == old_ctx.multisig
            &&& res->Ok_0.transaction == old_ctx.transaction
            &&& res->Ok_0.proposer == old_ctx.membership_key
            &&& signs_for_membership(
                res->Ok_0.signer_seeds@,
                old_ctx.multisig@,
                old_ctx.membership.wallet@,
                old_ctx.membership.bump,
            )
            &&& carries(res->Ok_0, pid, accs, data)
        },
{
    if res is Ok {
        membership_seed_entries(
            res->Ok_0.signer_seeds@,
            old_ctx.multisig@,
            old_ctx.membership.wallet@,
            old_ctx.membership.bump,
        );
        converted_entries(res->Ok_0.accs@, accs);
    }
}

/// Creating a text topic succeeds exactly when the title has fewer than 64
/// bytes and the topic's bump was found; then the topic belongs to the
/// context's multisig, holds the title, the authority and that bump, keeps
/// its body, and the proposal is signed with the seeds of the proposer's
/// address in the context's multisig.
pub proof fn creating_a_text_topic(
    old_ctx: CreateTextTopic,
    new_ctx: CreateTextTopic,
    title: String,
    authority: Pubkey,
    pid: Pubkey,
    accs: Seq<TransactionAccountCpi>,
    data: Seq<u8>,
    res: Result<CreateTransactionCall, NamaphError>,
)
    requires
        text_topic_created(old_ctx, new_ctx, title, authority, pid, accs, data, res),
    ensures
        res is Ok <==> encode_utf8(title@).len() < 64 && old_ctx.topic_bump is Some,
        encode_utf8(title@).len() >= 64 ==> res == Err::<CreateTransactionCall, NamaphError>(
            NamaphError::StringTooLong,
        ) && new_ctx == old_ctx,
        encode_utf8(title@).len() < 64 && old_ctx.topic_bump is None ==> res == Err::<
            CreateTransactionCall,
            NamaphError,
        >(NamaphError::BumpMismatch),
        res is Ok ==> {
            &&& new_ctx.topic.multisig == old_ctx.multisig
            &&& new_ctx.topic.title == title
            &&& new_ctx.topic.authority == authority
            &&& new_ctx.topic.bump == old_ctx.topic_bump->0
            &&& new_ctx.topic.body == old_ctx.topic.body
            &&& new_ctx.proposer == old_ctx.proposer
            &&& res->Ok_0.multisig == old_ctx.multisig
            &&& res->Ok_0.transaction == old_ctx.transaction
            &&& res->Ok_0.proposer == old_ctx.proposer_key
            &&& signs_for_membership(
                res->Ok_0.signer_seeds@,
                old_ctx.multisig@,
                old_ctx.proposer.wallet@,
                old_ctx.proposer.bump,
            )
            &&& carries(res->Ok_0, pid, accs, data)
        },
{
    if res is Ok {
        membership_seed_entries(
            res->Ok_0.signer_seeds@,
            old_ctx.multisig@,
            old_ctx.proposer.wallet@,
            old_ctx.proposer.bump,
        );
        converted_entries(res->Ok_0.accs@, accs);
    }
}

/// Proposing a removal is signed with the seeds of the proposer's wallet
/// alone and its bump, and carries `pid`, `data` and the entries unchanged.
pub proof fn proposing_a_removal(
    ctx: DeleteMembershipAndCreateTransactionCpi,
    pid: Pubkey,
    accs: Seq<TransactionAccountCpi>,
    data: Seq<u8>,
    call: CreateTransactionCall,
)
    requires
        removal_proposed(ctx, pid, accs, data, call),
    ensures
        call.multisig == ctx.multisig,
        call.transaction == ctx.transaction,
        call.proposer == ctx.proposer_key,
        signs_for_wallet_membership(call.signer_seeds@, ctx.proposer.wallet@, ctx.proposer.bump),
        carries(call, pid, accs, data),
{
    wallet_membership_seed_entries(call.signer_seeds@, ctx.proposer.wallet@, ctx.proposer.bump);
    converted_entries(call.accs@, accs);
}

/// An approval is given by the member's account, signed with the seeds of
/// its wallet alone and its bump.
pub proof fn approving(ctx: ApproveCpi, call: ApproveCall)
    requires
        approved(ctx, call),
    ensures
        call.multisig == ctx.multisig,
        call.transaction == ctx.transaction,
        call.owner == ctx.membership_key,
        signs_for_wallet_membership(
            call.signer_seeds@,
            ctx.membership.wallet@,
            ctx.membership.bump,
        ),
{
    wallet_membership_seed_entries(call.signer_seeds@, ctx.membership.wallet@, ctx.membership.bump);
}

/// Setting owners hands over exactly the owners given, signed with the
/// multisig's address as the one seed.
pub proof fn setting_owners(ctx: SetOwnersCpi, owners: Seq<Pubkey>, call: SetOwnersCall)
    requires
        owners_set(ctx, owners, call),
    ensures
        call.multisig == ctx.multisig,
        call.multisig_signer == ctx.multisig_signer,
        call.owners@ == owners,
        call.signer_seeds@.len() == 1,
        call.signer_seeds@[0]@ == ctx.multisig@,
{
    seed_list_entries(call.signer_seeds@);
    assert(call.signer_seeds@[0]@ == seed_list(call.signer_seeds@)[0]);
}

/// Spending succeeds exactly when the treasury holds more than `amount`;
/// then exactly `amount` leaves the treasury and reaches the receiver, and
/// nothing else changes. A refusal changes nothing.
pub proof fn spending(old_ctx: Spend, new_ctx: Spend, amount: u64, res: Result<(), NamaphError>)
    requires
        spent(old_ctx, new_ctx, amount, res),
        old_ctx.treasury_lamports > amount ==> old_ctx.to_lamports + amount <= u64::MAX,
    ensures
        res is Ok <==> old_ctx.treasury_lamports > amount,
        res is Err ==> res == Err::<(), NamaphError>(NamaphError::NotEnoughBalanceInTreasury)
            && new_ctx == old_ctx,
        res is Ok ==> {
            &&& new_ctx.treasury_lamports == old_ctx.treasury_lamports - amount
            &&& new_ctx.to_lamports == old_ctx.to_lamports + amount
            &&& new_ctx.treasury == old_ctx.treasury
            &&& new_ctx.authority == old_ctx.authority
            &&& new_ctx.to == old_ctx.to
        },
{
}

/// Updating cell `id` to `value` leaves `value` in that cell whatever it
/// held, and every other cell, the capacity and the rest of the topology as
/// they were.
pub proof fn updating_a_cell(old_ctx: UpdateTopology, new_ctx: UpdateTopology, id: u8, value: u8)
    requires
        topology_updated(old_ctx, new_ctx, id, value),
        id < old_ctx.topology.values@.len(),
    ensures
        new_ctx.topology.values@.len() == old_ctx.topology.values@.len(),
        new_ctx.topology.values@[id as int] == value,
        forall|j: int|
            0 <= j < old_ctx.topology.values@.len() && j != id ==> new_ctx.topology.values@[j]
                == old_ctx.topology.values@[j],
        new_ctx.topology.capacity == old_ctx.topology.capacity,
        new_ctx.topology.authority == old_ctx.topology.authority,
        new_ctx.topology.multisig == old_ctx.topology.multisig,
        new_ctx.topology.map_name == old_ctx.topology.map_name,
        new_ctx.topology.bump == old_ctx.topology.bump,
        new_ctx.proposer == old_ctx.proposer,
        new_ctx.authority == old_ctx.authority,
{
}

/// A url update succeeds exactly when the url has fewer than 256 bytes; it
/// then replaces the url and nothing else, and a refusal changes nothing.
pub proof fn updating_a_url(
    old_ctx: UpdateUrlTopic,
    new_ctx: UpdateUrlTopic,
    url: String,
    res: Result<(), NamaphError>,
)
    requires
        url_updated(old_ctx, new_ctx, url, res),
    ensures
        res is Ok <==> encode_utf8(url@).len() < 256,
        res is Err ==> res == Err::<(), NamaphError>(NamaphError::StringTooLong) && new_ctx
            == old_ctx,
        res is Ok ==> {
            &&& new_ctx.url_topic.url == url
            &&& new_ctx.url_topic.title == old_ctx.url_topic.title
            &&& new_ctx.url_topic.multisig == old_ctx.url_topic.multisig
            &&& new_ctx.url_topic.authority == old_ctx.url_topic.authority
            &&& new_ctx.url_topic.bump == old_ctx.url_topic.bump
            &&& new_ctx.authority == old_ctx.authority
        },
{
}

/// A body update succeeds exactly when the body has fewer than 1600 bytes;
/// it then replaces the body and nothing else, and a refusal changes nothing.
pub proof fn updating_a_body(
    old_ctx: UpdateTextTopic,
    new_ctx: UpdateTextTopic,
    body: String,
    res: Result<(), NamaphError>,
)
    requires
        text_body_updated(old_ctx, new_ctx, body, res),
    ensures
        res is Ok <==> encode_utf8(body@).len() < 1600,
        res is Err ==> res == Err::<(), NamaphError>(NamaphError::StringTooLong) && new_ctx
            == old_ctx,
        res is Ok ==> {
            &&& new_ctx.text_topic.body == body
            &&& new_ctx.text_topic.title == old_ctx.text_topic.title
            &&& new_ctx.text_topic.multisig == old_ctx.text_topic.multisig
            &&& new_ctx.text_topic.authority == old_ctx.text_topic.authority
            &&& new_ctx.text_topic.bump == old_ctx.text_topic.bump
            &&& new_ctx.authority == old_ctx.authority
        },
{
}

/// Creating a treasury succeeds exactly when the name has fewer than 32
/// characters and the treasury's bump was found; the treasury then belongs
/// to the context's multisig and holds the name, the authority and the bump.
pub proof fn creating_a_treasury(
    old_ctx: CreateTreasury,
    new_ctx: CreateTreasury,
    treasury_name: String,
    authority: Pubkey,
    res: Result<(), NamaphError>,
)
    requires
        treasury_created(old_ctx, new_ctx, treasury_name, authority, res),
    ensures
        res is Ok <==> treasury_name@.len() < 32 && old_ctx.treasury_bump is Some,
        treasury_name@.len() >= 32 ==> res == Err::<(), NamaphError>(NamaphError::StringTooLong)
            && new_ctx == old_ctx,
        treasury_name@.len() < 32 && old_ctx.treasury_bump is None ==> res == Err::<
            (),
            NamaphError,
        >(NamaphError::BumpMismatch),
        res is Ok ==> {
            &&& new_ctx.treasury.multisig == old_ctx.multisig
            &&& new_ctx.treasury.name == treasury_name
            &&& new_ctx.treasury.authority == authority
            &&& new_ctx.treasury.bump == old_ctx.treasury_bump->0
            &&& new_ctx.multisig == old_ctx.multisig
        },
{
}

/// The first step of `initialize` succeeds exactly when both names are short
/// enough (in characters), the membership's bump was found and the multisig
/// signer exists; then the membership holds the payer, the user name and the
/// bump, and the multisig is to be made with the membership as its one owner
/// and a threshold of one, its signer being the program address of the
/// multisig under the multisig program.
pub proof fn starting_a_multisig(
    old_ctx: Init,
    new_ctx: Init,
    username: String,
    map_name: String,
    capacity: u8,
    nonce: u8,
    res: Result<InitPending, NamaphError>,
)
    requires
        initialize_started(old_ctx, new_ctx, username, map_name, capacity, nonce, res),
    ensures
        res is Ok <==> map_name@.len() < 32 && username@.len() < 40
            && old_ctx.membership_bump is Some && found_program_address(
            seq![old_ctx.multisig@],
            old_ctx.multisig_program@,
        ) is Some,
        !(map_name@.len() < 32 && username@.len() < 40) ==> res == Err::<InitPending, NamaphError>(
            NamaphError::StringTooLong,
        ) && new_ctx == old_ctx,
        map_name@.len() < 32 && username@.len() < 40 && old_ctx.membership_bump is None ==> res
            == Err::<InitPending, NamaphError>(NamaphError::BumpMismatch),
        res is Ok ==> {
            &&& new_ctx.membership.wallet == old_ctx.payer
            &&& new_ctx.membership.username == username
            &&& new_ctx.membership.bump == old_ctx.membership_bump->0
            &&& new_ctx.topology == old_ctx.topology
            &&& res->Ok_0.create_multisig.multisig == old_ctx.multisig
            &&& res->Ok_0.create_multisig.owners@ == seq![old_ctx.membership_key]
            &&& res->Ok_0.create_multisig.threshold == 1
            &&& res->Ok_0.create_multisig.nonce == nonce
            &&& res->Ok_0.multisig_signer@ == (found_program_address(
                seq![old_ctx.multisig@],
                old_ctx.multisig_program@,
            )->0).0
            &&& res->Ok_0.map_name == map_name
            &&& res->Ok_0.capacity == capacity
        },
{
}

/// The last step of `initialize` succeeds exactly when the topology's bump
/// was found; then the topology belongs to the multisig, answers to the
/// multisig signer, and holds the name, the capacity, that bump and as many
/// cells as its capacity, all zero.
pub proof fn finishing_a_multisig(
    old_ctx: Init,
    new_ctx: Init,
    pending: InitPending,
    res: Result<(), NamaphError>,
)
    requires
        initialize_completed(old_ctx, new_ctx, pending, res),
    ensures
        res is Ok <==> old_ctx.topology_bump is Some,
        res is Err ==> res == Err::<(), NamaphError>(NamaphError::BumpMismatch),
        new_ctx.membership == old_ctx.membership,
        res is Ok ==> {
            &&& new_ctx.topology.multisig == old_ctx.multisig
            &&& new_ctx.topology.authority == pending.multisig_signer
            &&& new_ctx.topology.map_name == pending.map_name
            &&& new_ctx.topology.capacity == pending.capacity
            &&& new_ctx.topology.bump == old_ctx.topology_bump->0
            &&& new_ctx.topology.values@.len() == pending.capacity
            &&& forall|i: int|
                0 <= i < pending.capacity ==> #[trigger] new_ctx.topology.values@[i] == 0
        },
{
}

} // verus!
