use vstd::prelude::*;

verus! {

/// The ways an instruction of the program is refused.
#[derive(Clone, Copy, Debug, PartialEq, Eq)]
pub enum NamaphError {
    /// A name, title, body or url is longer than its account allows.
    StringTooLong,
    /// The bump seed of an account that the instruction creates was not found.
    BumpMismatch,
    /// The treasury holds no more lamports than were asked for.
    NotEnoughBalanceInTreasury,
    /// No bump seed yields a program address for the multisig signer.
    NoViableBump,
}

} // verus!
