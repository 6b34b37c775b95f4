use vstd::prelude::*;

use crate::error::NamaphError;
use crate::model::treasury::Treasury;
use crate::pubkey::Pubkey;

verus! {

/// What `spend` reads and writes: the treasury and its lamports, the
/// authority that signs, and the receiving account and its lamports.
#[derive(Clone, Debug, PartialEq, Eq)]
pub struct Spend {
    pub treasury: Treasury,
    pub treasury_lamports: u64,
    pub authority: Pubkey,
    pub to: Pubkey,
    pub to_lamports: u64,
}

/// Spending `amount` takes the context from `old_ctx` to `new_ctx` and gives
/// `res`.
pub open spec fn spent(old_ctx: Spend, new_ctx: Spend, amount: u64, res: Result<(), NamaphError>) -> bool {
    if !(old_ctx.treasury_lamports > amount) {
        &&& res == Err::<(), NamaphError>(NamaphError::NotEnoughBalanceInTreasury)
        &&& new_ctx == old_ctx
    } else {
        &&& res == Ok::<(), NamaphError>(())
        &&& new_ctx == (Spend {
            treasury_lamports: (old_ctx.treasury_lamports - amount) as u64,
            to_lamports: (old_ctx.to_lamports + amount) as u64,
            ..old_ctx
        })
    }
}

/// Moves `amount` lamports from the treasury to the receiving account, if
/// the treasury holds more than `amount`.
pub fn handler(ctx: &mut Spend, amount: u64) -> (res: Result<(), NamaphError>)
    requires
        old(ctx).treasury_lamports > amount ==> old(ctx).to_lamports + amount <= u64::MAX,
    ensures
        spent(*old(ctx), *final(ctx), amount, res),
        final(ctx).treasury_lamports + final(ctx).to_lamports == old(ctx).treasury_lamports + old(ctx).to_lamports,
        final(ctx).treasury_lamports > 0 || final(ctx).treasury_lamports == old(ctx).treasury_lamports,
{
    let balance = ctx.treasury_lamports;
    if !(balance > amount) {
        return Err(NamaphError::NotEnoughBalanceInTreasury);
    }
    ctx.treasury_lamports = ctx.treasury_lamports - amount;
    ctx.to_lamports = ctx.to_lamports + amount;
    Ok(())
}

} // verus!
