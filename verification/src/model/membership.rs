use vstd::prelude::*;

use crate::model::{string_encoded_len, DISCRIMINATOR_BYTES, PUBKEY_BYTES};
use crate::pubkey::Pubkey;

verus! {

/// A member of a multisig: its wallet, the multisig, a user name and the
/// bump seed of its own address.
#[derive(Clone, Debug, PartialEq, Eq)]
pub struct Membership {
    pub wallet: Pubkey,
    pub multisig: Pubkey,
    pub username: String,
    pub bump: u8,
}

impl Membership {
    pub const MAX_NAME_BYTES: usize = 40;

    pub const SIZE: usize = 8 + 32 + 32 + 4 + Self::MAX_NAME_BYTES + 1;

    /// The bytes this account's data takes once written.
    pub open spec fn encoded_len(&self) -> nat {
        (DISCRIMINATOR_BYTES + PUBKEY_BYTES + PUBKEY_BYTES + string_encoded_len(self.username@) + 1) as nat
    }
}

} // verus!
