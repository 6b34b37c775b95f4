use namaph_multisig::cpi::CreateTransactionCall;
use namaph_multisig::error::NamaphError;
use namaph_multisig::instructions::add_membership::{self, AddMembershipAndCreateTransactionCpi};
use namaph_multisig::instructions::approve_cpi::{self, ApproveCpi};
use namaph_multisig::instructions::create_text_topic::{self, CreateTextTopic};
use namaph_multisig::instructions::create_transaction::{self, CreateTransactionCpi};
use namaph_multisig::instructions::create_treasury::{self, CreateTreasury};
use namaph_multisig::instructions::delete_membership::{self, DeleteMembershipAndCreateTransactionCpi};
use namaph_multisig::instructions::init::{self, Init};
use namaph_multisig::instructions::set_owners_cpi::{self, SetOwnersCpi};
use namaph_multisig::instructions::spend::{self, Spend};
use namaph_multisig::instructions::update_text_topic::{self, UpdateTextTopic};
use namaph_multisig::instructions::update_topology::{self, UpdateTopology};
use namaph_multisig::instructions::update_url_topic::{self, UpdateUrlTopic};
use namaph_multisig::model::membership::Membership;
use namaph_multisig::model::text::TextTopic;
use namaph_multisig::model::topology::Topology;
use namaph_multisig::model::transaction_meta::TransactionMeta;
use namaph_multisig::model::treasury::Treasury;
use namaph_multisig::model::url::UrlTopic;
use namaph_multisig::model::{TransactionAccount, TransactionAccountCpi};
use namaph_multisig::pubkey::Pubkey;

fn key(b: u8) -> Pubkey {
    Pubkey::new_from_array([b; 32])
}

fn zero_key() -> Pubkey {
    key(0)
}

fn blank_membership() -> Membership {
    Membership { wallet: zero_key(), multisig: zero_key(), username: String::new(), bump: 0 }
}

fn blank_topology() -> Topology {
    Topology {
        multisig: zero_key(),
        map_name: String::new(),
        capacity: 0,
        values: vec![],
        authority: zero_key(),
        bump: 0,
    }
}

fn membership_tag() -> Vec<u8> {
    b"membership".to_vec()
}

fn init_ctx() -> Init {
    Init {
        topology: blank_topology(),
        multisig: key(7),
        payer: key(8),
        membership: blank_membership(),
        membership_key: key(9),
        multisig_program: key(10),
        membership_bump: Some(254),
        topology_bump: Some(253),
    }
}

fn expected_signer(multisig: &Pubkey, program: &Pubkey) -> Pubkey {
    let program = anchor_lang::prelude::Pubkey::new_from_array(program.bytes);
    let (addr, _) = anchor_lang::prelude::Pubkey::find_program_address(&[&multisig.bytes], &program);
    Pubkey::new_from_array(addr.to_bytes())
}

#[test]
fn initialize_records_the_first_member_and_topology() {
    let mut ctx = init_ctx();
    let pending = init::handler(&mut ctx, "alice".to_string(), "city".to_string(), 4, 3).unwrap();
    assert_eq!(
        ctx.membership,
        Membership { wallet: key(8), multisig: zero_key(), username: "alice".to_string(), bump: 254 }
    );
    assert_eq!(pending.create_multisig.multisig, key(7));
    assert_eq!(pending.create_multisig.owners, vec![key(9)]);
    assert_eq!(pending.create_multisig.threshold, 1);
    assert_eq!(pending.create_multisig.nonce, 3);
    assert_eq!(pending.map_name, "city");
    assert_eq!(pending.capacity, 4);
    let signer = expected_signer(&key(7), &key(10));
    assert_eq!(pending.multisig_signer, signer);
    assert_ne!(pending.multisig_signer, key(7));
    assert_ne!(pending.multisig_signer, key(10));

    init::complete(&mut ctx, pending).unwrap();
    assert_eq!(
        ctx.topology,
        Topology {
            multisig: key(7),
            map_name: "city".to_string(),
            capacity: 4,
            values: vec![0, 0, 0, 0],
            authority: signer,
            bump: 253,
        }
    );
}

#[test]
fn initialize_refuses_long_names() {
    let mut ctx = init_ctx();
    let before = ctx.clone();
    let map32 = "m".repeat(32);
    assert_eq!(
        init::handler(&mut ctx, "alice".to_string(), map32, 4, 3).unwrap_err(),
        NamaphError::StringTooLong
    );
    assert_eq!(ctx, before);
    let user40 = "u".repeat(40);
    assert_eq!(
        init::handler(&mut ctx, user40, "city".to_string(), 4, 3).unwrap_err(),
        NamaphError::StringTooLong
    );
    assert_eq!(ctx, before);
    // 31 and 39 characters pass.
    assert!(init::handler(&mut ctx, "u".repeat(39), "m".repeat(31), 4, 3).is_ok());
}

#[test]
fn initialize_counts_characters_of_names() {
    // 39 two-byte characters: 78 bytes, accepted by the character count,
    // though the membership then needs more bytes than its account has.
    let mut ctx = init_ctx();
    let name = "é".repeat(39);
    assert!(init::handler(&mut ctx, name.clone(), "city".to_string(), 1, 0).is_ok());
    let needed = 8 + 32 + 32 + 4 + name.len() + 1;
    assert!(needed > Membership::SIZE);
}

#[test]
fn initialize_without_membership_bump() {
    let mut ctx = init_ctx();
    ctx.membership_bump = None;
    let mut expected = ctx.clone();
    expected.membership.wallet = key(8);
    assert_eq!(
        init::handler(&mut ctx, "alice".to_string(), "city".to_string(), 4, 3).unwrap_err(),
        NamaphError::BumpMismatch
    );
    assert_eq!(ctx, expected);
}

#[test]
fn complete_without_topology_bump() {
    let mut ctx = init_ctx();
    ctx.topology_bump = None;
    let pending = init::handler(&mut ctx, "alice".to_string(), "city".to_string(), 2, 3).unwrap();
    let signer = pending.multisig_signer;
    assert_eq!(init::complete(&mut ctx, pending).unwrap_err(), NamaphError::BumpMismatch);
    assert_eq!(ctx.topology.authority, signer);
    assert_eq!(ctx.topology.capacity, 2);
    assert_eq!(ctx.topology.map_name, "city");
    assert!(ctx.topology.values.is_empty());
    assert_eq!(ctx.topology.bump, 0);
}

#[test]
fn update_topology_sets_one_cell() {
    let mut topology = blank_topology();
    topology.capacity = 3;
    topology.values = vec![0, 0, 0];
    let mut ctx = UpdateTopology { topology, proposer: blank_membership(), authority: key(1) };
    update_topology::handler(&mut ctx, 1, 42);
    assert_eq!(ctx.topology.values, vec![0, 42, 0]);
    update_topology::handler(&mut ctx, 2, 7);
    assert_eq!(ctx.topology.values, vec![0, 42, 7]);
    assert_eq!(ctx.topology.capacity, 3);
}

fn proposer() -> Membership {
    Membership { wallet: key(21), multisig: key(7), username: "bob".to_string(), bump: 250 }
}

fn accs() -> Vec<TransactionAccountCpi> {
    vec![TransactionAccountCpi { pubkey: key(30), is_writable: true, is_signer: false }]
}

fn converted_accs() -> Vec<TransactionAccount> {
    vec![TransactionAccount { pubkey: key(30), is_signer: false, is_writable: true }]
}

fn check_proposal(call: &CreateTransactionCall, seeds: Vec<Vec<u8>>, proposer_key: Pubkey) {
    assert_eq!(call.multisig, key(7));
    assert_eq!(call.transaction, key(40));
    assert_eq!(call.proposer, proposer_key);
    assert_eq!(call.signer_seeds, seeds);
    assert_eq!(call.pid, key(50));
    assert_eq!(call.accs, converted_accs());
    assert_eq!(call.data, vec![1, 2, 3]);
}

fn add_ctx() -> AddMembershipAndCreateTransactionCpi {
    AddMembershipAndCreateTransactionCpi {
        proposer: proposer(),
        proposer_key: key(22),
        multisig: key(7),
        transaction: key(40),
        membership: blank_membership(),
        membership_bump: Some(249),
    }
}

#[test]
fn add_membership_records_member_and_proposes() {
    let mut ctx = add_ctx();
    let call = add_membership::handler(&mut ctx, "carol".to_string(), key(23), key(50), accs(), vec![1, 2, 3])
        .unwrap();
    assert_eq!(
        ctx.membership,
        Membership { wallet: key(23), multisig: zero_key(), username: "carol".to_string(), bump: 249 }
    );
    check_proposal(&call, vec![membership_tag(), vec![7; 32], vec![21; 32], vec![250]], key(22));
}

#[test]
fn add_membership_refusals() {
    let mut ctx = add_ctx();
    let before = ctx.clone();
    assert_eq!(
        add_membership::handler(&mut ctx, "x".repeat(40), key(23), key(50), accs(), vec![]).unwrap_err(),
        NamaphError::StringTooLong
    );
    assert_eq!(ctx, before);
    ctx.membership_bump = None;
    assert_eq!(
        add_membership::handler(&mut ctx, "x".repeat(39), key(23), key(50), accs(), vec![]).unwrap_err(),
        NamaphError::BumpMismatch
    );
    assert_eq!(ctx.membership.wallet, key(23));
    assert_eq!(ctx.membership.username, "");
}

#[test]
fn delete_membership_signs_by_wallet_alone() {
    let ctx = DeleteMembershipAndCreateTransactionCpi {
        proposer: proposer(),
        proposer_key: key(22),
        multisig: key(7),
        transaction: key(40),
    };
    let call = delete_membership::handler(&ctx, key(50), accs(), vec![1, 2, 3]);
    check_proposal(&call, vec![membership_tag(), vec![21; 32], vec![250]], key(22));
}

fn tx_ctx() -> CreateTransactionCpi {
    CreateTransactionCpi {
        membership: proposer(),
        membership_key: key(22),
        multisig: key(7),
        transaction: key(40),
        transaction_meta: TransactionMeta { proposer: zero_key(), timestamp: 0, bump: 0 },
        transaction_meta_bump: Some(248),
    }
}

#[test]
fn create_transaction_records_proposer_and_time() {
    let mut ctx = tx_ctx();
    let call = create_transaction::handler(&mut ctx, key(50), accs(), vec![1, 2, 3], 1_650_000_000).unwrap();
    assert_eq!(
        ctx.transaction_meta,
        TransactionMeta { proposer: key(22), timestamp: 1_650_000_000, bump: 248 }
    );
    check_proposal(&call, vec![membership_tag(), vec![7; 32], vec![21; 32], vec![250]], key(22));
}

#[test]
fn create_transaction_without_bump() {
    let mut ctx = tx_ctx();
    ctx.transaction_meta_bump = None;
    assert_eq!(
        create_transaction::handler(&mut ctx, key(50), accs(), vec![], -5).unwrap_err(),
        NamaphError::BumpMismatch
    );
    assert_eq!(ctx.transaction_meta, TransactionMeta { proposer: key(22), timestamp: -5, bump: 0 });
}

#[test]
fn approve_signs_by_wallet_alone() {
    let ctx = ApproveCpi { multisig: key(7), transaction: key(40), membership: proposer(), membership_key: key(22) };
    let call = approve_cpi::handler(&ctx);
    assert_eq!(call.multisig, key(7));
    assert_eq!(call.transaction, key(40));
    assert_eq!(call.owner, key(22));
    assert_eq!(call.signer_seeds, vec![membership_tag(), vec![21; 32], vec![250]]);
}

fn blank_treasury() -> Treasury {
    Treasury { multisig: zero_key(), authority: zero_key(), name: String::new(), bump: 0 }
}

#[test]
fn create_treasury_records_name_and_authority() {
    let mut ctx = CreateTreasury { treasury: blank_treasury(), multisig: key(7), treasury_bump: Some(247) };
    create_treasury::handle(&mut ctx, "fund".to_string(), key(60)).unwrap();
    assert_eq!(
        ctx.treasury,
        Treasury { multisig: key(7), authority: key(60), name: "fund".to_string(), bump: 247 }
    );
}

#[test]
fn create_treasury_refusals() {
    let mut ctx = CreateTreasury { treasury: blank_treasury(), multisig: key(7), treasury_bump: Some(247) };
    let before = ctx.clone();
    assert_eq!(
        create_treasury::handle(&mut ctx, "n".repeat(32), key(60)).unwrap_err(),
        NamaphError::StringTooLong
    );
    assert_eq!(ctx, before);
    ctx.treasury_bump = None;
    assert_eq!(
        create_treasury::handle(&mut ctx, "n".repeat(31), key(60)).unwrap_err(),
        NamaphError::BumpMismatch
    );
    assert_eq!(ctx.treasury.name, "n".repeat(31));
    assert_eq!(ctx.treasury.authority, key(60));
    assert_eq!(ctx.treasury.multisig, zero_key());
}

fn spend_ctx(treasury: u64, to: u64) -> Spend {
    Spend { treasury: blank_treasury(), treasury_lamports: treasury, authority: key(60), to: key(61), to_lamports: to }
}

#[test]
fn spend_moves_lamports() {
    let mut ctx = spend_ctx(1_000, 5);
    spend::handler(&mut ctx, 300).unwrap();
    assert_eq!(ctx.treasury_lamports, 700);
    assert_eq!(ctx.to_lamports, 305);
    assert_eq!(ctx.treasury_lamports + ctx.to_lamports, 1_005);
}

#[test]
fn spend_never_empties_the_treasury() {
    let mut ctx = spend_ctx(1_000, 5);
    let before = ctx.clone();
    assert_eq!(spend::handler(&mut ctx, 1_000).unwrap_err(), NamaphError::NotEnoughBalanceInTreasury);
    assert_eq!(ctx, before);
    assert_eq!(spend::handler(&mut ctx, 1_001).unwrap_err(), NamaphError::NotEnoughBalanceInTreasury);
    assert_eq!(ctx, before);
    spend::handler(&mut ctx, 999).unwrap();
    assert_eq!(ctx.treasury_lamports, 1);
    assert_eq!(ctx.to_lamports, 1_004);
}

fn url_topic() -> UrlTopic {
    UrlTopic {
        multisig: key(7),
        title: "docs".to_string(),
        url: "https://a.example".to_string(),
        authority: key(60),
        bump: 1,
    }
}

#[test]
fn update_url_topic_checks_bytes() {
    let mut ctx = UpdateUrlTopic { url_topic: url_topic(), authority: key(60) };
    update_url_topic::handle(&mut ctx, key(1), "docs".to_string(), "https://b.example".to_string()).unwrap();
    assert_eq!(ctx.url_topic.url, "https://b.example");
    let before = ctx.clone();
    assert_eq!(
        update_url_topic::handle(&mut ctx, key(1), String::new(), "u".repeat(256)).unwrap_err(),
        NamaphError::StringTooLong
    );
    assert_eq!(ctx, before);
    // 128 two-byte characters are 256 bytes.
    assert_eq!(
        update_url_topic::handle(&mut ctx, key(1), String::new(), "é".repeat(128)).unwrap_err(),
        NamaphError::StringTooLong
    );
    update_url_topic::handle(&mut ctx, key(1), String::new(), "u".repeat(255)).unwrap();
    assert_eq!(ctx.url_topic.url.len(), 255);
}

fn text_topic() -> TextTopic {
    TextTopic { multisig: key(7), title: "plan".to_string(), body: String::new(), authority: key(60), bump: 1 }
}

#[test]
fn update_text_topic_checks_bytes() {
    let mut ctx = UpdateTextTopic { text_topic: text_topic(), authority: key(60) };
    update_text_topic::handle(&mut ctx, "hello".to_string()).unwrap();
    assert_eq!(ctx.text_topic.body, "hello");
    let before = ctx.clone();
    assert_eq!(update_text_topic::handle(&mut ctx, "b".repeat(1600)).unwrap_err(), NamaphError::StringTooLong);
    assert_eq!(ctx, before);
    assert_eq!(update_text_topic::handle(&mut ctx, "é".repeat(800)).unwrap_err(), NamaphError::StringTooLong);
    update_text_topic::handle(&mut ctx, "b".repeat(1599)).unwrap();
    assert_eq!(ctx.text_topic.body.len(), 1599);
}

fn text_ctx() -> CreateTextTopic {
    CreateTextTopic {
        topic: TextTopic { multisig: zero_key(), title: String::new(), body: String::new(), authority: zero_key(), bump: 0 },
        multisig: key(7),
        proposer: proposer(),
        proposer_key: key(22),
        transaction: key(40),
        topic_bump: Some(246),
    }
}

#[test]
fn create_text_topic_records_and_proposes() {
    let mut ctx = text_ctx();
    let call = create_text_topic::handle(&mut ctx, "plan".to_string(), key(60), key(50), accs(), vec![1, 2, 3])
        .unwrap();
    assert_eq!(
        ctx.topic,
        TextTopic { multisig: key(7), title: "plan".to_string(), body: String::new(), authority: key(60), bump: 246 }
    );
    check_proposal(&call, vec![membership_tag(), vec![7; 32], vec![21; 32], vec![250]], key(22));
}

#[test]
fn create_text_topic_refusals() {
    let mut ctx = text_ctx();
    let before = ctx.clone();
    assert_eq!(
        create_text_topic::handle(&mut ctx, "t".repeat(64), key(60), key(50), accs(), vec![]).unwrap_err(),
        NamaphError::StringTooLong
    );
    assert_eq!(ctx, before);
    ctx.topic_bump = None;
    assert_eq!(
        create_text_topic::handle(&mut ctx, "t".repeat(63), key(60), key(50), accs(), vec![]).unwrap_err(),
        NamaphError::BumpMismatch
    );
    assert_eq!(ctx.topic.title, "t".repeat(63));
    assert_eq!(ctx.topic.authority, key(60));
    assert_eq!(ctx.topic.multisig, zero_key());
}

#[test]
fn set_owners_signs_with_the_multisig_address() {
    let ctx = SetOwnersCpi { multisig: key(7), multisig_signer: key(70) };
    let call = set_owners_cpi::handler(&ctx, vec![key(1), key(2)]);
    assert_eq!(call.multisig, key(7));
    assert_eq!(call.multisig_signer, key(70));
    assert_eq!(call.signer_seeds, vec![vec![7u8; 32]]);
    assert_eq!(call.owners, vec![key(1), key(2)]);
}
