use vstd::prelude::*;

use crate::model::{string_encoded_len, DISCRIMINATOR_BYTES, PUBKEY_BYTES};
use crate::pubkey::Pubkey;

verus! {

/// A named account of the multisig that holds lamports and pays them out at
/// the order of its authority.
#[derive(Clone, Debug, PartialEq, Eq)]
pub struct Treasury {
    pub multisig: Pubkey,
    /// The multisig signer.
    pub authority: Pubkey,
    pub name: String,
    pub bump: u8,
}

impl Treasury {
    pub const MAX_NAME_CHAR_COUNT: usize = 32;

    pub const SIZE: usize = 8 + 32 + 32 + 4 + Self::MAX_NAME_CHAR_COUNT;

    /// The bytes this account's data takes once written.
    pub open spec fn encoded_len(&self) -> nat {
        (DISCRIMINATOR_BYTES + PUBKEY_BYTES + PUBKEY_BYTES + string_encoded_len(self.name@) + 1) as nat
    }
}

} // verus!
