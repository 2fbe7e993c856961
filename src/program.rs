//! The pool's entry points, one per instruction.
use vstd::prelude::*;
use crate::curve::XYAmounts;
use crate::deposit::Deposit;
use crate::error::AmmError;
use crate::state::{is_authority, with_lock, Initialize, InitializeBumps, Pubkey, Update};
use crate::swap::Swap;
use crate::withdraw::Withdraw;

verus! {

/// Creates the pool record; a fee above 10000 basis points, or the same
/// asset on both sides, is refused.
pub fn initialize(
    ctx: &mut Initialize,
    seed: u64,
    fee: u16,
    authority: Option<Pubkey>,
    bumps: InitializeBumps,
) -> (r: Result<(), AmmError>)
    ensures
        r is Err <==> fee > 10000 || old(ctx).mint_x@ == old(ctx).mint_y@,
        fee > 10000 ==> r == Err::<(), AmmError>(AmmError::InvalidFee),
        fee <= 10000 && old(ctx).mint_x@ == old(ctx).mint_y@ ==> r == Err::<(), AmmError>(
            AmmError::IdenticalAssets,
        ),
        r is Err ==> *final(ctx) == *old(ctx),
        r is Ok ==> final(ctx).config.wf(),
        r is Ok ==> final(ctx).config.seed == seed && final(ctx).config.fee == fee
            && final(ctx).config.authority == authority && !final(ctx).config.locked
            && final(ctx).config.mint_x == old(ctx).mint_x && final(ctx).config.mint_y == old(
            ctx,
        ).mint_y && final(ctx).config.config_bump == bumps.config && final(ctx).config.lp_bump
            == bumps.mint_lp,
{
    ctx.init(seed, fee, authority, bumps)
}

/// Deposits for `amount` new shares, paying at most `max_x` and `max_y`.
pub fn deposit(ctx: &mut Deposit, amount: u64, max_x: u64, max_y: u64) -> (r: Result<XYAmounts, AmmError>)
    ensures
        r == old(ctx).deposit_result(amount, max_x, max_y),
        r is Ok ==> *final(ctx) == old(ctx).after_deposit(r->Ok_0, amount),
        r is Err ==> *final(ctx) == *old(ctx),
        old(ctx).wf() ==> final(ctx).wf(),
{
    ctx.deposit(amount, max_x, max_y)
}

/// Burns `amount` shares for at least `min_x` and `min_y`.
pub fn withdraw(ctx: &mut Withdraw, amount: u64, min_x: u64, min_y: u64) -> (r: Result<XYAmounts, AmmError>)
    ensures
        r == old(ctx).withdraw_result(amount, min_x, min_y),
        r is Ok ==> *final(ctx) == old(ctx).after_withdraw(r->Ok_0, amount),
        r is Err ==> *final(ctx) == *old(ctx),
        old(ctx).wf() ==> final(ctx).wf(),
{
    ctx.withdraw(amount, min_x, min_y)
}

/// Trades `amount` of X (or Y) for at least `min` of the other asset.
pub fn swap(ctx: &mut Swap, is_x: bool, amount: u64, min: u64) -> (r: Result<u64, AmmError>)
    ensures
        r == old(ctx).swap_result(is_x, amount, min),
        r is Ok ==> *final(ctx) == old(ctx).after_swap(is_x, amount, r->Ok_0),
        r is Ok ==> r->Ok_0 < old(ctx).reserve_out(is_x),
        r is Err ==> *final(ctx) == *old(ctx),
        old(ctx).wf() ==> final(ctx).wf(),
{
    ctx.swap(is_x, amount, min)
}

/// Locks or unlocks the pool, for its authority only.
pub fn update_lock(ctx: &mut Update, lock: bool) -> (r: Result<(), AmmError>)
    ensures
        r is Ok <==> is_authority(old(ctx).config, old(ctx).user),
        r is Err ==> r->Err_0 == AmmError::Unauthorized && *final(ctx) == *old(ctx),
        r is Ok ==> final(ctx).config == with_lock(old(ctx).config, lock),
        final(ctx).user == old(ctx).user,
{
    if lock {
        ctx.lock()
    } else {
        ctx.unlock()
    }
}

} // verus!
