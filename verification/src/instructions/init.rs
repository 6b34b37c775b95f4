use vstd::prelude::*;
use vstd::string::StrSliceExecFns;
use vstd::utf8::{is_ascii_chars, is_ascii_chars_encode_utf8};

use crate::cpi::CreateMultisigCall;
use crate::error::NamaphError;
use crate::model::membership::Membership;
use crate::model::topology::{topology_size, Topology};
use crate::pda::{found_program_address, try_find_program_address};
use crate::pubkey::Pubkey;
use crate::seeds::{multisig_signer_seed_list, multisig_signer_seeds};

verus! {

/// What `initialize` reads and writes: the new topology and membership, the
/// new multisig account (a signer), the payer, the multisig program, and the
/// bump seeds found for the two accounts it creates.
#[derive(Clone, Debug, PartialEq, Eq)]
pub struct Init {
    pub topology: Topology,
    pub multisig: Pubkey,
    pub payer: Pubkey,
    pub membership: Membership,
    pub membership_key: Pubkey,
    pub multisig_program: Pubkey,
    pub membership_bump: Option<u8>,
    pub topology_bump: Option<u8>,
}

/// What is left of `initialize` once the multisig program has made the
/// multisig: the call to make, the multisig signer's address, and the
/// topology's name and capacity.
#[derive(Clone, Debug, PartialEq, Eq)]
pub struct InitPending {
    pub create_multisig: CreateMultisigCall,
    pub multisig_signer: Pubkey,
    pub map_name: String,
    pub capacity: u8,
}

/// The name checks of `initialize` pass.
pub open spec fn init_names_fit(username: Seq<char>, map_name: Seq<char>) -> bool {
    map_name.len() < Topology::MAX_NAME_BYTES && username.len() < Membership::MAX_NAME_BYTES
}

/// The first step of `initialize` takes the context from `old_ctx` to
/// `new_ctx` and gives `res`.
pub open spec fn initialize_started(
    old_ctx: Init,
    new_ctx: Init,
    username: String,
    map_name: String,
    capacity: u8,
    nonce: u8,
    res: Result<InitPending, NamaphError>,
) -> bool {
    if !init_names_fit(username@, map_name@) {
        &&& res == Err::<InitPending, NamaphError>(NamaphError::StringTooLong)
        &&& new_ctx == old_ctx
    } else {
        match old_ctx.membership_bump {
            None => {
                &&& res == Err::<InitPending, NamaphError>(NamaphError::BumpMismatch)
                &&& new_ctx == (Init {
                    membership: (Membership { wallet: old_ctx.payer, ..old_ctx.membership }),
                    ..old_ctx
                })
            },
            Some(bump) => {
                &&& new_ctx == (Init {
                    membership: (Membership {
                        wallet: old_ctx.payer,
                        bump: bump,
                        username: username,
                        ..old_ctx.membership
                    }),
                    ..old_ctx
                })
                &&& match found_program_address(
                    multisig_signer_seeds(old_ctx.multisig@),
                    old_ctx.multisig_program@,
                ) {
                    None => res == Err::<InitPending, NamaphError>(NamaphError::NoViableBump),
                    Some(found) => {
                        &&& res is Ok
                        &&& res->Ok_0.multisig_signer@ == found.0
                        &&& res->Ok_0.create_multisig.multisig == old_ctx.multisig
                        &&& res->Ok_0.create_multisig.owners@ == seq![old_ctx.membership_key]
                        &&& res->Ok_0.create_multisig.threshold == 1
                        &&& res->Ok_0.create_multisig.nonce == nonce
                        &&& res->Ok_0.map_name == map_name
                        &&& res->Ok_0.capacity == capacity
                    },
                }
            },
        }
    }
}

/// Starts a multisig with its first member and its topology. Checks both
/// names (in characters), records the payer's membership, finds the
/// multisig signer and returns the call that makes the multisig, with the
/// membership as its one owner and a threshold of one. `complete` finishes
/// once that call succeeded.
pub fn handler(ctx: &mut Init, username: String, map_name: String, capacity: u8, nonce: u8) -> (res:
    Result<InitPending, NamaphError>)
    ensures
        initialize_started(*old(ctx), *final(ctx), username, map_name, capacity, nonce, res),
        res is Ok && is_ascii_chars(username@) ==> final(ctx).membership.encoded_len()
            <= Membership::SIZE,
{
    if !(map_name.as_str().unicode_len() < Topology::MAX_NAME_BYTES) {
        return Err(NamaphError::StringTooLong);
    }
    if !(username.as_str().unicode_len() < Membership::MAX_NAME_BYTES) {
        return Err(NamaphError::StringTooLong);
    }
    let payer = ctx.payer;
    ctx.membership.wallet = payer;
    let bump = match ctx.membership_bump {
        Some(b) => b,
        None => {
            return Err(NamaphError::BumpMismatch);
        },
    };
    ctx.membership.bump = bump;
    proof {
        if is_ascii_chars(username@) {
            is_ascii_chars_encode_utf8(username@);
        }
    }
    ctx.membership.username = username;

    let seeds = multisig_signer_seed_list(&ctx.multisig);
    let multisig_signer = match try_find_program_address(&seeds, &ctx.multisig_program) {
        Some(found) => found.0,
        None => {
            return Err(NamaphError::NoViableBump);
        },
    };
    let mut owners: Vec<Pubkey> = Vec::new();
    owners.push(ctx.membership_key);
    Ok(
        InitPending {
            create_multisig: CreateMultisigCall {
                multisig: ctx.multisig,
                owners,
                threshold: 1,
                nonce,
            },
            multisig_signer,
            map_name,
            capacity,
        },
    )
}

/// `capacity` cells, all zero.
fn zeroed_cells(capacity: u8) -> (cells: Vec<u8>)
    ensures
        cells@ == Seq::new(capacity as nat, |i: int| 0u8),
{
    let mut cells: Vec<u8> = Vec::new();
    let mut i: u8 = 0;
    while i < capacity
        invariant
            i <= capacity,
            cells@ == Seq::new(i as nat, |k: int| 0u8),
        decreases capacity - i,
    {
        cells.push(0u8);
        i = i + 1;
        assert(cells@ =~= Seq::new(i as nat, |k: int| 0u8));
    }
    cells
}

/// The last step of `initialize` takes the context from `old_ctx` to
/// `new_ctx` and gives `res`.
pub open spec fn initialize_completed(
    old_ctx: Init,
    new_ctx: Init,
    pending: InitPending,
    res: Result<(), NamaphError>,
) -> bool {
    match old_ctx.topology_bump {
        None => {
            &&& res == Err::<(), NamaphError>(NamaphError::BumpMismatch)
            &&& new_ctx == (Init {
                topology: (Topology {
                    authority: pending.multisig_signer,
                    capacity: pending.capacity,
                    multisig: old_ctx.multisig,
                    map_name: pending.map_name,
                    ..old_ctx.topology
                }),
                ..old_ctx
            })
        },
        Some(bump) => {
            &&& res == Ok::<(), NamaphError>(())
            &&& new_ctx == (Init {
                topology: (Topology {
                    authority: pending.multisig_signer,
                    capacity: pending.capacity,
                    multisig: old_ctx.multisig,
                    map_name: pending.map_name,
                    bump: bump,
                    values: new_ctx.topology.values,
                }),
                ..old_ctx
            })
            &&& new_ctx.topology.values@ == Seq::new(pending.capacity as nat, |i: int| 0u8)
        },
    }
}

/// Finishes `initialize` once the multisig program made the multisig: the
/// topology records the multisig signer as its authority, its capacity, the
/// multisig, its name and bump, and `capacity` cells that are all zero.
pub fn complete(ctx: &mut Init, pending: InitPending) -> (res: Result<(), NamaphError>)
    ensures
        initialize_completed(*old(ctx), *final(ctx), pending, res),
        res is Ok ==> final(ctx).topology.values@.len() == final(ctx).topology.capacity,
        res is Ok && pending.map_name@.len() < Topology::MAX_NAME_BYTES && is_ascii_chars(
            pending.map_name@,
        ) ==> final(ctx).topology.encoded_len() <= topology_size(pending.capacity as int),
{
    ctx.topology.authority = pending.multisig_signer;
    ctx.topology.capacity = pending.capacity;
    ctx.topology.multisig = ctx.multisig;
    proof {
        if is_ascii_chars(pending.map_name@) {
            is_ascii_chars_encode_utf8(pending.map_name@);
        }
    }
    ctx.topology.map_name = pending.map_name;
    let bump = match ctx.topology_bump {
        Some(b) => b,
        None => {
            return Err(NamaphError::BumpMismatch);
        },
    };
    ctx.topology.bump = bump;
    ctx.topology.values = zeroed_cells(pending.capacity);
    Ok(())
}

} // verus!
