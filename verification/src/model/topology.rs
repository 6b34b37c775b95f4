use vstd::prelude::*;

use crate::model::{bytes_encoded_len, string_encoded_len, DISCRIMINATOR_BYTES, PUBKEY_BYTES};
use crate::pubkey::Pubkey;

verus! {

/// A map of `capacity` cells, each holding a byte, that the multisig governs.
#[derive(Clone, Debug, PartialEq, Eq)]
pub struct Topology {
    pub multisig: Pubkey,
    pub map_name: String,
    pub capacity: u8,
    pub values: Vec<u8>,
    pub authority: Pubkey,
    pub bump: u8,
}

/// The space a topology of `capacity` cells is given: discriminator,
/// multisig, name, capacity, cells, authority and bump.
pub open spec fn topology_size(capacity: int) -> int {
    8 + 32 + 4 + Topology::MAX_NAME_BYTES + 1 + 4 + capacity + 32 + 1
}

impl Topology {
    pub const MAX_NAME_BYTES: usize = 32;

    /// The bytes this account's data takes once written.
    pub open spec fn encoded_len(&self) -> nat {
        (DISCRIMINATOR_BYTES + PUBKEY_BYTES + string_encoded_len(self.map_name@) + 1
            + bytes_encoded_len(self.values@) + PUBKEY_BYTES + 1) as nat
    }

    /// The space to allot to a topology of `capacity` cells.
    pub fn size(capacity: u8) -> (size: usize)
        ensures
            size == topology_size(capacity as int),
    {
        8 + // disc
        32 + // multisig
        4 + Self::MAX_NAME_BYTES + // in ascii
        1 + // cap
        4 + capacity as usize + 32 + // authority
        1
    }
}

} // verus!
