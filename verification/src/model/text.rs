use vstd::prelude::*;
use vstd::utf8::encode_utf8;

use crate::model::{string_encoded_len, DISCRIMINATOR_BYTES, PUBKEY_BYTES};
use crate::pubkey::Pubkey;

verus! {

/// A topic of discussion of the multisig: a title and a body of text.
#[derive(Clone, Debug, PartialEq, Eq)]
pub struct TextTopic {
    pub multisig: Pubkey,
    pub title: String,
    pub body: String,
    pub authority: Pubkey,
    pub bump: u8,
}

impl TextTopic {
    pub const MAX_TITLE_BYTES: usize = 64;

    pub const MAX_BODY_BYTES: usize = 1600;

    pub const SIZE: usize = 8 + // disc
    32 + // multisig
    4 + Self::MAX_TITLE_BYTES + // in ascii
    4 + Self::MAX_BODY_BYTES + // in ascii
    32 + // authority
    1;

    /// The title and the body are within their limits in bytes.
    pub open spec fn well_formed(&self) -> bool {
        &&& encode_utf8(self.title@).len() < Self::MAX_TITLE_BYTES
        &&& encode_utf8(self.body@).len() < Self::MAX_BODY_BYTES
    }

    /// The bytes this account's data takes once written.
    pub open spec fn encoded_len(&self) -> nat {
        (DISCRIMINATOR_BYTES + PUBKEY_BYTES + string_encoded_len(self.title@) + string_encoded_len(
            self.body@,
        ) + PUBKEY_BYTES + 1) as nat
    }
}

} // verus!
