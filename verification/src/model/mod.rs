use vstd::prelude::*;
use vstd::utf8::encode_utf8;

use crate::pubkey::Pubkey;

pub mod membership;
pub mod text;
pub mod topology;
pub mod transaction_meta;
pub mod treasury;
pub mod url;

verus! {

/// The bytes Anchor puts in front of every account's data to tell its kind.
pub const DISCRIMINATOR_BYTES: usize = 8;

/// The bytes an address takes in account data.
pub const PUBKEY_BYTES: usize = 32;

/// The bytes Borsh writes for a string: a 4-byte length, then its UTF-8 bytes.
pub open spec fn string_encoded_len(s: Seq<char>) -> nat {
    4 + encode_utf8(s).len()
}

/// The bytes Borsh writes for a byte vector: a 4-byte length, then the bytes.
pub open spec fn bytes_encoded_len(v: Seq<u8>) -> nat {
    4 + v.len()
}

/// An account that a transaction of the multisig program reads or writes, as
/// this program receives it.
#[derive(Clone, Copy, Debug, PartialEq, Eq)]
pub struct TransactionAccountCpi {
    pub pubkey: Pubkey,
    pub is_writable: bool,
    pub is_signer: bool,
}

/// An account that a transaction of the multisig program reads or writes, as
/// the multisig program takes it.
#[derive(Clone, Copy, Debug, PartialEq, Eq)]
pub struct TransactionAccount {
    pub pubkey: Pubkey,
    pub is_signer: bool,
    pub is_writable: bool,
}

/// The multisig program's form of an account entry: the same three fields.
pub open spec fn converted(tacpi: TransactionAccountCpi) -> TransactionAccount {
    TransactionAccount {
        pubkey: tacpi.pubkey,
        is_signer: tacpi.is_signer,
        is_writable: tacpi.is_writable,
    }
}

impl TransactionAccount {
    /// The entry `tacpi` in the multisig program's form.
    pub fn from(tacpi: &TransactionAccountCpi) -> (ta: TransactionAccount)
        ensures
            ta == converted(*tacpi),
            ta.pubkey == tacpi.pubkey,
            ta.is_signer == tacpi.is_signer,
            ta.is_writable == tacpi.is_writable,
    {
        TransactionAccount {
            pubkey: tacpi.pubkey,
            is_writable: tacpi.is_writable,
            is_signer: tacpi.is_signer,
        }
    }
}

/// Every entry of `accs` in the multisig program's form, in order.
pub fn to_transaction_accounts(accs: &Vec<TransactionAccountCpi>) -> (out: Vec<
    TransactionAccount,
>)
    ensures
        out@ == accs@.map_values(|a: TransactionAccountCpi| converted(a)),
        out@.len() == accs@.len(),
        forall|i: int|
            0 <= i < accs@.len() ==> (#[trigger] out@[i]).pubkey == accs@[i].pubkey
                && out@[i].is_signer == accs@[i].is_signer && out@[i].is_writable
                == accs@[i].is_writable,
{
    let mut out: Vec<TransactionAccount> = Vec::new();
    let mut i: usize = 0;
    while i < accs.len()
        invariant
            i <= accs@.len(),
            out@ == accs@.take(i as int).map_values(|a: TransactionAccountCpi| converted(a)),
        decreases accs@.len() - i,
    {
        out.push(TransactionAccount::from(&accs[i]));
        proof {
            assert(accs@.take(i + 1) == accs@.take(i as int).push(accs@[i as int]));
        }
        i = i + 1;
    }
    assert(accs@.take(accs@.len() as int) == accs@);
    out
}

} // verus!
