use namaph_multisig::model::membership::Membership;
use namaph_multisig::model::text::TextTopic;
use namaph_multisig::model::topology::Topology;
use namaph_multisig::model::transaction_meta::TransactionMeta;
use namaph_multisig::model::treasury::Treasury;
use namaph_multisig::model::url::UrlTopic;
use namaph_multisig::model::{to_transaction_accounts, TransactionAccount, TransactionAccountCpi};
use namaph_multisig::pubkey::Pubkey;
use namaph_multisig::util::fit_string;

#[test]
fn fit_string_keeps_short_names() {
    assert_eq!(fit_string("abc"), b"abc");
    assert_eq!(fit_string(""), b"");
    let exact = "a".repeat(32);
    assert_eq!(fit_string(&exact), exact.as_bytes());
}

#[test]
fn fit_string_cuts_long_names_to_thirty_two_bytes() {
    let long = "abcdefghijklmnopqrstuvwxyz0123456789";
    assert_eq!(fit_string(long), &long.as_bytes()[..32]);
    assert_eq!(fit_string(long).len(), 32);
}

#[test]
fn fit_string_counts_bytes_not_characters() {
    // 20 characters of two bytes each: 40 bytes, cut to 32.
    let s = "é".repeat(20);
    assert_eq!(s.len(), 40);
    let out = fit_string(&s);
    assert_eq!(out.len(), 32);
    assert_eq!(out, &s.as_bytes()[..32]);
}

#[test]
fn account_sizes() {
    assert_eq!(Membership::SIZE, 117);
    assert_eq!(Treasury::SIZE, 108);
    assert_eq!(TextTopic::SIZE, 1745);
    assert_eq!(UrlTopic::SIZE, 401);
    assert_eq!(TransactionMeta::SIZE, 49);
}

#[test]
fn topology_size_grows_with_capacity() {
    assert_eq!(Topology::size(0), 114);
    assert_eq!(Topology::size(10), 124);
    assert_eq!(Topology::size(255), 369);
}

#[test]
fn transaction_accounts_keep_their_flags_and_order() {
    let a = TransactionAccountCpi { pubkey: Pubkey::new_from_array([1; 32]), is_writable: true, is_signer: false };
    let b = TransactionAccountCpi { pubkey: Pubkey::new_from_array([2; 32]), is_writable: false, is_signer: true };
    let out = to_transaction_accounts(&vec![a, b]);
    assert_eq!(
        out,
        vec![
            TransactionAccount { pubkey: Pubkey::new_from_array([1; 32]), is_signer: false, is_writable: true },
            TransactionAccount { pubkey: Pubkey::new_from_array([2; 32]), is_signer: true, is_writable: false },
        ]
    );
    assert_eq!(TransactionAccount::from(&a), out[0]);
    assert!(to_transaction_accounts(&vec![]).is_empty());
}

#[test]
fn pubkey_seed_is_its_bytes() {
    let mut bytes = [0u8; 32];
    for (i, b) in bytes.iter_mut().enumerate() {
        *b = i as u8;
    }
    let k = Pubkey::new_from_array(bytes);
    assert_eq!(k.to_seed(), bytes.to_vec());
}
