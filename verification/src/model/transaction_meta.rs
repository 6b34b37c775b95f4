use vstd::prelude::*;

use crate::model::{DISCRIMINATOR_BYTES, PUBKEY_BYTES};
use crate::pubkey::Pubkey;

verus! {

/// Who proposed a multisig transaction, and when.
#[derive(Clone, Copy, Debug, PartialEq, Eq)]
pub struct TransactionMeta {
    pub proposer: Pubkey,
    pub timestamp: i64,
    pub bump: u8,
}

impl TransactionMeta {
    pub const SIZE: usize = 8 + 32 + 8 + 1;

    /// The bytes this account's data takes once written.
    pub open spec fn encoded_len(&self) -> nat {
        (DISCRIMINATOR_BYTES + PUBKEY_BYTES + 8 + 1) as nat
    }
}

} // verus!
