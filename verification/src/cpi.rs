use vstd::prelude::*;

use crate::model::{converted, TransactionAccount, TransactionAccountCpi};
use crate::seeds::seed_list;
use crate::pubkey::Pubkey;

verus! {

/// A call of the multisig program's `create_multisig`: make `multisig` a
/// multisig of `owners` that executes a transaction once `threshold` of them
/// approved it.
#[derive(Clone, Debug, PartialEq, Eq)]
pub struct CreateMultisigCall {
    pub multisig: Pubkey,
    pub owners: Vec<Pubkey>,
    pub threshold: u64,
    pub nonce: u8,
}

/// A call of the multisig program's `create_transaction`: `proposer`, which
/// this program signs for with `signer_seeds`, proposes that `multisig` run
/// the instruction `data` of program `pid` over `accs`, recorded in
/// `transaction`.
#[derive(Clone, Debug, PartialEq, Eq)]
pub struct CreateTransactionCall {
    pub multisig: Pubkey,
    pub transaction: Pubkey,
    pub proposer: Pubkey,
    pub signer_seeds: Vec<Vec<u8>>,
    pub pid: Pubkey,
    pub accs: Vec<TransactionAccount>,
    pub data: Vec<u8>,
}

/// A call of the multisig program's `approve`: `owner`, which this program
/// signs for with `signer_seeds`, approves `transaction` of `multisig`.
#[derive(Clone, Debug, PartialEq, Eq)]
pub struct ApproveCall {
    pub multisig: Pubkey,
    pub transaction: Pubkey,
    pub owner: Pubkey,
    pub signer_seeds: Vec<Vec<u8>>,
}

/// A call of the multisig program's `set_owners`: `owners` become the owners
/// of `multisig`, signed for by its `multisig_signer` with `signer_seeds`.
#[derive(Clone, Debug, PartialEq, Eq)]
pub struct SetOwnersCall {
    pub multisig: Pubkey,
    pub multisig_signer: Pubkey,
    pub signer_seeds: Vec<Vec<u8>>,
    pub owners: Vec<Pubkey>,
}

/// `call` proposes, as `proposer` signed for with `seeds`, that `multisig`
/// run the instruction `data` of program `pid` over the entries `accs`,
/// recorded in `transaction`.
pub open spec fn proposes(
    call: CreateTransactionCall,
    multisig: Pubkey,
    transaction: Pubkey,
    proposer: Pubkey,
    seeds: Seq<Seq<u8>>,
    pid: Pubkey,
    accs: Seq<TransactionAccountCpi>,
    data: Seq<u8>,
) -> bool {
    &&& call.multisig == multisig
    &&& call.transaction == transaction
    &&& call.proposer == proposer
    &&& seed_list(call.signer_seeds@) == seeds
    &&& call.pid == pid
    &&& call.accs@ == accs.map_values(|a: TransactionAccountCpi| converted(a))
    &&& call.data@ == data
}

} // verus!
