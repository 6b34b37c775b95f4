use vstd::prelude::*;
use vstd::string::StrSliceExecFns;
use vstd::utf8::{is_ascii_chars, is_ascii_chars_encode_utf8};

use crate::error::NamaphError;
use crate::model::treasury::Treasury;
use crate::pubkey::Pubkey;

verus! {

/// What `create_treasury` reads and writes: the new treasury, the multisig,
/// and the bump seed found for the treasury.
#[derive(Clone, Debug, PartialEq, Eq)]
pub struct CreateTreasury {
    pub treasury: Treasury,
    pub multisig: Pubkey,
    pub treasury_bump: Option<u8>,
}

/// Creating a treasury takes the context from `old_ctx` to `new_ctx` and
/// gives `res`.
pub open spec fn treasury_created(
    old_ctx: CreateTreasury,
    new_ctx: CreateTreasury,
    treasury_name: String,
    authority: Pubkey,
    res: Result<(), NamaphError>,
) -> bool {
    if !(treasury_name@.len() < Treasury::MAX_NAME_CHAR_COUNT) {
        &&& res == Err::<(), NamaphError>(NamaphError::StringTooLong)
        &&& new_ctx == old_ctx
    } else {
        match old_ctx.treasury_bump {
            None => {
                &&& res == Err::<(), NamaphError>(NamaphError::BumpMismatch)
                &&& new_ctx == (CreateTreasury {
                    treasury: (Treasury {
                        name: treasury_name,
                        authority: authority,
                        ..old_ctx.treasury
                    }),
                    ..old_ctx
                })
            },
            Some(bump) => {
                &&& res == Ok::<(), NamaphError>(())
                &&& new_ctx == (CreateTreasury {
                    treasury: (Treasury {
                        name: treasury_name,
                        authority: authority,
                        bump: bump,
                        multisig: old_ctx.multisig,
                    }),
                    ..old_ctx
                })
            },
        }
    }
}

/// Creates the treasury of the multisig named `treasury_name` (checked in
/// characters), paid out at the order of `authority`.
pub fn handle(ctx: &mut CreateTreasury, treasury_name: String, authority: Pubkey) -> (res: Result<
    (),
    NamaphError,
>)
    ensures
        treasury_created(*old(ctx), *final(ctx), treasury_name, authority, res),
        res is Ok && is_ascii_chars(treasury_name@) ==> final(ctx).treasury.encoded_len()
            <= Treasury::SIZE,
{
    if !(treasury_name.as_str().unicode_len() < Treasury::MAX_NAME_CHAR_COUNT) {
        return Err(NamaphError::StringTooLong);
    }
    proof {
        if is_ascii_chars(treasury_name@) {
            is_ascii_chars_encode_utf8(treasury_name@);
        }
    }
    ctx.treasury.name = treasury_name;
    ctx.treasury.authority = authority;
    let bump = match ctx.treasury_bump {
        Some(b) => b,
        None => {
            return Err(NamaphError::BumpMismatch);
        },
    };
    ctx.treasury.bump = bump;
    ctx.treasury.multisig = ctx.multisig;
    Ok(())
}

} // verus!
