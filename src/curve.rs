//! Fixed-point curve math: proportional share sizing and the swap curve.
use vstd::prelude::*;
use vstd::arithmetic::div_mod::{
    lemma_div_is_ordered,
    lemma_div_is_ordered_by_denominator,
    lemma_fundamental_div_mod,
    lemma_fundamental_div_mod_converse,
};
use vstd::arithmetic::mul::lemma_mul_upper_bound;
use crate::error::AmmError;

verus! {

/// One basis point is a ten-thousandth of the swap input.
pub const BPS_DENOMINATOR: u64 = 10000;

/// Decimal precision of the share token.
pub const LP_DECIMALS: u8 = 6;

/// A pair of amounts, one of each reserve asset.
#[derive(Debug, Clone, Copy, PartialEq, Eq, Structural)]
pub struct XYAmounts {
    pub x: u64,
    pub y: u64,
}

/// The part of `reserve` that `shares` out of `supply` stand for, rounded down.
pub open spec fn share_of(shares: int, reserve: int, supply: int) -> int {
    shares * reserve / supply
}

/// Whether both proportional amounts fit the amount type.
pub open spec fn shares_fit(reserve_x: int, reserve_y: int, supply: int, shares: int) -> bool {
    share_of(shares, reserve_x, supply) <= u64::MAX && share_of(shares, reserve_y, supply)
        <= u64::MAX
}

/// The swap input left after the fee, rounded down.
pub open spec fn effective_input(amount_in: int, fee_bps: int) -> int {
    amount_in * (10000 - fee_bps) / 10000
}

/// `a / b` rounded up.
pub open spec fn ceil_div(a: int, b: int) -> int {
    (a + b - 1) / b
}

/// What the output reserve must keep after a trade: the product of the
/// reserves divided by the input reserve plus the effective input, rounded
/// up, so that rounding always stays with the pool.
pub open spec fn reserve_out_after(reserve_in: int, reserve_out: int, amount_in: int, fee_bps: int) -> int {
    ceil_div(reserve_in * reserve_out, reserve_in + effective_input(amount_in, fee_bps))
}

/// The amount of the output asset that a trade pays out.
pub open spec fn swap_out(reserve_in: int, reserve_out: int, amount_in: int, fee_bps: int) -> int {
    reserve_out - reserve_out_after(reserve_in, reserve_out, amount_in, fee_bps)
}

/// Whether the swap curve is defined: a valid fee and a nonzero denominator.
pub open spec fn swap_defined(reserve_in: int, amount_in: int, fee_bps: int) -> bool {
    0 <= fee_bps <= 10000 && reserve_in + effective_input(amount_in, fee_bps) > 0
}

fn proportional(shares: u64, reserve: u64, supply: u64) -> (r: Option<u64>)
    requires
        supply > 0,
    ensures
        r is Some <==> share_of(shares as int, reserve as int, supply as int) <= u64::MAX,
        r is Some ==> r->Some_0 == share_of(shares as int, reserve as int, supply as int),
{
    proof {
        lemma_mul_upper_bound(shares as int, u64::MAX as int, reserve as int, u64::MAX as int);
    }
    let product: u128 = shares as u128 * reserve as u128;
    let q: u128 = product / supply as u128;
    if q > u64::MAX as u128 {
        None
    } else {
        Some(q as u64)
    }
}

fn amounts_for_shares(reserve_x: u64, reserve_y: u64, lp_supply: u64, shares: u64) -> (r: Result<
    XYAmounts,
    AmmError,
>)
    requires
        lp_supply > 0,
    ensures
        r is Ok <==> shares_fit(reserve_x as int, reserve_y as int, lp_supply as int, shares as int),
        r is Err ==> r->Err_0 == AmmError::ArithmeticOverflow,
        r is Ok ==> r->Ok_0.x == share_of(shares as int, reserve_x as int, lp_supply as int),
        r is Ok ==> r->Ok_0.y == share_of(shares as int, reserve_y as int, lp_supply as int),
{
    match (proportional(shares, reserve_x, lp_supply), proportional(shares, reserve_y, lp_supply)) {
        (Some(x), Some(y)) => Ok(XYAmounts { x, y }),
        _ => Err(AmmError::ArithmeticOverflow),
    }
}

/// The amounts of each reserve asset that minting `shares` new shares costs.
/// Only for a pool that already has shares: the first deposit sets its own price.
pub fn deposit_amounts_for_shares(reserve_x: u64, reserve_y: u64, lp_supply: u64, shares: u64) -> (r:
    Result<XYAmounts, AmmError>)
    ensures
        lp_supply == 0 ==> r == Err::<XYAmounts, AmmError>(AmmError::InvalidComputation),
        lp_supply > 0 && !shares_fit(reserve_x as int, reserve_y as int, lp_supply as int, shares as int)
            ==> r == Err::<XYAmounts, AmmError>(AmmError::ArithmeticOverflow),
        r is Ok <==> lp_supply > 0 && shares_fit(
            reserve_x as int,
            reserve_y as int,
            lp_supply as int,
            shares as int,
        ),
        r is Ok ==> r->Ok_0.x == share_of(shares as int, reserve_x as int, lp_supply as int),
        r is Ok ==> r->Ok_0.y == share_of(shares as int, reserve_y as int, lp_supply as int),
{
    if lp_supply == 0 {
        return Err(AmmError::InvalidComputation);
    }
    amounts_for_shares(reserve_x, reserve_y, lp_supply, shares)
}

/// The amounts of each reserve asset that burning `shares` shares pays out.
pub fn withdraw_amounts_for_shares(reserve_x: u64, reserve_y: u64, lp_supply: u64, shares: u64) -> (r:
    Result<XYAmounts, AmmError>)
    ensures
        lp_supply == 0 ==> r == Err::<XYAmounts, AmmError>(AmmError::DivisionByZero),
        lp_supply > 0 && !shares_fit(reserve_x as int, reserve_y as int, lp_supply as int, shares as int)
            ==> r == Err::<XYAmounts, AmmError>(AmmError::ArithmeticOverflow),
        r is Ok <==> lp_supply > 0 && shares_fit(
            reserve_x as int,
            reserve_y as int,
            lp_supply as int,
            shares as int,
        ),
        r is Ok ==> r->Ok_0.x == share_of(shares as int, reserve_x as int, lp_supply as int),
        r is Ok ==> r->Ok_0.y == share_of(shares as int, reserve_y as int, lp_supply as int),
{
    if lp_supply == 0 {
        return Err(AmmError::DivisionByZero);
    }
    amounts_for_shares(reserve_x, reserve_y, lp_supply, shares)
}

/// Minting shares at the proportional price keeps the reserve per share:
/// after the deposit, `reserve / supply` is at most what it was and less
/// than one unit of reserve per unit of supply below it.
pub proof fn lemma_deposit_price_neutral(reserve: int, supply: int, shares: int)
    requires
        reserve >= 0,
        supply > 0,
        shares >= 0,
    ensures
        (reserve + share_of(shares, reserve, supply)) * supply <= reserve * (supply + shares),
        reserve * (supply + shares) < (reserve + share_of(shares, reserve, supply) + 1) * supply,
{
    lemma_fundamental_div_mod(shares * reserve, supply);
    let x = share_of(shares, reserve, supply);
    let r = (shares * reserve) % supply;
    assert((reserve + x) * supply + r == reserve * (supply + shares)) by (nonlinear_arith)
        requires
            shares * reserve == supply * x + r,
    ;
    assert((reserve + x + 1) * supply == (reserve + x) * supply + supply) by (nonlinear_arith);
}

/// Withdrawing the shares just minted pays back exactly what the deposit
/// took, so rounding never favours the withdrawer.
pub proof fn lemma_deposit_then_withdraw(reserve: int, supply: int, shares: int)
    requires
        reserve >= 0,
        supply > 0,
        shares >= 0,
    ensures
        share_of(shares, reserve + share_of(shares, reserve, supply), supply + shares) == share_of(
            shares,
            reserve,
            supply,
        ),
{
    lemma_fundamental_div_mod(shares * reserve, supply);
    let x = share_of(shares, reserve, supply);
    let r = (shares * reserve) % supply;
    assert(shares * (reserve + x) == x * (supply + shares) + r) by (nonlinear_arith)
        requires
            shares * reserve == supply * x + r,
    ;
    lemma_fundamental_div_mod_converse(shares * (reserve + x), supply + shares, x, r);
}

/// Withdrawing every share of a freshly bootstrapped pool pays back exactly
/// the amounts that the first deposit brought.
pub proof fn lemma_bootstrap_then_withdraw(amount: int, shares: int)
    requires
        amount >= 0,
        shares > 0,
    ensures
        share_of(shares, amount, shares) == amount,
{
    assert(shares * amount == amount * shares) by (nonlinear_arith);
    lemma_fundamental_div_mod_converse(shares * amount, shares, amount, 0);
}

/// A part of the supply stands for at most the whole reserve.
pub proof fn lemma_share_within_reserve(shares: int, reserve: int, supply: int)
    requires
        0 <= shares <= supply,
        supply > 0,
        reserve >= 0,
    ensures
        0 <= share_of(shares, reserve, supply) <= reserve,
{
    assert(0 <= shares * reserve <= reserve * supply) by (nonlinear_arith)
        requires
            0 <= shares <= supply,
            reserve >= 0,
    ;
    lemma_div_is_ordered(0, shares * reserve, supply);
    lemma_div_is_ordered(shares * reserve, reserve * supply, supply);
    lemma_fundamental_div_mod_converse(reserve * supply, supply, reserve, 0);
}

/// The fee takes between nothing and all of the input.
pub proof fn lemma_effective_input_bounds(amount_in: int, fee_bps: int)
    requires
        amount_in >= 0,
        0 <= fee_bps <= 10000,
    ensures
        0 <= effective_input(amount_in, fee_bps) <= amount_in,
{
    assert(0 <= amount_in * (10000 - fee_bps) <= amount_in * 10000) by (nonlinear_arith)
        requires
            amount_in >= 0,
            0 <= fee_bps <= 10000,
    ;
    lemma_div_is_ordered(0, amount_in * (10000 - fee_bps), 10000);
    lemma_div_is_ordered(amount_in * (10000 - fee_bps), amount_in * 10000, 10000);
    lemma_fundamental_div_mod_converse(amount_in * 10000, 10000, amount_in, 0);
}

proof fn lemma_ceil_div_bounds(k: int, d: int)
    requires
        k >= 0,
        d > 0,
    ensures
        ceil_div(k, d) >= 0,
        ceil_div(k, d) * d >= k,
        ceil_div(k, d) * d < k + d,
        k >= 1 ==> ceil_div(k, d) >= 1,
{
    lemma_fundamental_div_mod(k + d - 1, d);
    lemma_div_is_ordered(0, k + d - 1, d);
    let q = ceil_div(k, d);
    let r = (k + d - 1) % d;
    assert(k + d - 1 == d * q + r);
    assert(q * d == d * q) by (nonlinear_arith);
    if k >= 1 {
        lemma_div_is_ordered(d, k + d - 1, d);
        lemma_fundamental_div_mod_converse(d, d, 1, 0);
    }
}

proof fn lemma_div_add_denominator(x: int, d: int)
    requires
        x >= 0,
        d > 0,
    ensures
        (x + d) / d == x / d + 1,
{
    lemma_fundamental_div_mod(x, d);
    let q = x / d;
    let r = x % d;
    assert(x + d == (q + 1) * d + r) by (nonlinear_arith)
        requires
            x == d * q + r,
    ;
    lemma_fundamental_div_mod_converse(x + d, d, q + 1, r);
}

/// The output reserve keeps between nothing and all of its balance, and at
/// least one unit when both reserves hold something.
pub proof fn lemma_reserve_out_after_bounds(reserve_in: int, reserve_out: int, amount_in: int, fee_bps: int)
    requires
        reserve_in >= 0,
        reserve_out >= 0,
        amount_in >= 0,
        swap_defined(reserve_in, amount_in, fee_bps),
    ensures
        0 <= reserve_out_after(reserve_in, reserve_out, amount_in, fee_bps) <= reserve_out,
        reserve_in > 0 && reserve_out > 0 ==> reserve_out_after(reserve_in, reserve_out, amount_in, fee_bps) >= 1,
{
    lemma_effective_input_bounds(amount_in, fee_bps);
    let d = reserve_in + effective_input(amount_in, fee_bps);
    let k = reserve_in * reserve_out;
    assert(0 <= k <= reserve_out * d) by (nonlinear_arith)
        requires
            0 <= reserve_in <= d,
            reserve_out >= 0,
            k == reserve_in * reserve_out,
    ;
    if reserve_in > 0 && reserve_out > 0 {
        assert(k >= 1) by (nonlinear_arith)
            requires
                reserve_in >= 1,
                reserve_out >= 1,
                k == reserve_in * reserve_out,
        ;
    }
    lemma_ceil_div_bounds(k, d);
    let c = ceil_div(k, d);
    assert(c <= reserve_out) by (nonlinear_arith)
        requires
            c * d < k + d,
            k <= reserve_out * d,
            d > 0,
    ;
}

/// Each swap pays out strictly less than the output reserve holds, so no
/// trade drains the pool, as long as both reserves hold something.
pub proof fn lemma_swap_out_below_reserve(reserve_in: int, reserve_out: int, amount_in: int, fee_bps: int)
    requires
        reserve_in > 0,
        reserve_out > 0,
        amount_in >= 0,
        0 <= fee_bps <= 10000,
    ensures
        0 <= swap_out(reserve_in, reserve_out, amount_in, fee_bps) < reserve_out,
{
    lemma_effective_input_bounds(amount_in, fee_bps);
    lemma_reserve_out_after_bounds(reserve_in, reserve_out, amount_in, fee_bps);
}

/// A larger input never buys less output.
pub proof fn lemma_swap_out_monotonic(
    reserve_in: int,
    reserve_out: int,
    amount_in_1: int,
    amount_in_2: int,
    fee_bps: int,
)
    requires
        reserve_in >= 0,
        reserve_out >= 0,
        0 <= amount_in_1 <= amount_in_2,
        swap_defined(reserve_in, amount_in_1, fee_bps),
    ensures
        swap_defined(reserve_in, amount_in_2, fee_bps),
        swap_out(reserve_in, reserve_out, amount_in_1, fee_bps) <= swap_out(
            reserve_in,
            reserve_out,
            amount_in_2,
            fee_bps,
        ),
{
    assert(amount_in_1 * (10000 - fee_bps) <= amount_in_2 * (10000 - fee_bps)) by (nonlinear_arith)
        requires
            0 <= amount_in_1 <= amount_in_2,
            0 <= fee_bps <= 10000,
    ;
    lemma_div_is_ordered(amount_in_1 * (10000 - fee_bps), amount_in_2 * (10000 - fee_bps), 10000);
    let d1 = reserve_in + effective_input(amount_in_1, fee_bps);
    let d2 = reserve_in + effective_input(amount_in_2, fee_bps);
    let k = reserve_in * reserve_out;
    assert(k >= 0) by (nonlinear_arith)
        requires
            reserve_in >= 0,
            reserve_out >= 0,
            k == reserve_in * reserve_out,
    ;
    if k >= 1 {
        lemma_div_is_ordered_by_denominator(k - 1, d1, d2);
        lemma_div_add_denominator(k - 1, d1);
        lemma_div_add_denominator(k - 1, d2);
    } else {
        lemma_fundamental_div_mod_converse(d1 - 1, d1, 0, d1 - 1);
        lemma_fundamental_div_mod_converse(d2 - 1, d2, 0, d2 - 1);
    }
}

/// A trade never lowers the product of the reserves: the input reserve
/// gains the whole input and the output reserve keeps what the curve says.
pub proof fn lemma_swap_keeps_product(reserve_in: int, reserve_out: int, amount_in: int, fee_bps: int)
    requires
        reserve_in >= 0,
        reserve_out >= 0,
        amount_in >= 0,
        swap_defined(reserve_in, amount_in, fee_bps),
    ensures
        (reserve_in + amount_in) * (reserve_out - swap_out(reserve_in, reserve_out, amount_in, fee_bps))
            >= reserve_in * reserve_out,
{
    lemma_effective_input_bounds(amount_in, fee_bps);
    let d = reserve_in + effective_input(amount_in, fee_bps);
    let k = reserve_in * reserve_out;
    assert(k >= 0) by (nonlinear_arith)
        requires
            reserve_in >= 0,
            reserve_out >= 0,
            k == reserve_in * reserve_out,
    ;
    lemma_ceil_div_bounds(k, d);
    let c = ceil_div(k, d);
    assert((reserve_in + amount_in) * c >= k) by (nonlinear_arith)
        requires
            c >= 0,
            c * d >= k,
            reserve_in + amount_in >= d,
    ;
}

/// The output that a trade of `amount_in` buys against reserves
/// `(reserve_in, reserve_out)`, after a fee of `fee_bps` basis points.
/// Intermediate products are held in 128 bits, so no input overflows.
pub fn swap_output(reserve_in: u64, reserve_out: u64, amount_in: u64, fee_bps: u16) -> (r: Result<
    u64,
    AmmError,
>)
    ensures
        amount_in == 0 ==> r == Err::<u64, AmmError>(AmmError::InvalidAmount),
        amount_in != 0 && fee_bps > 10000 ==> r == Err::<u64, AmmError>(AmmError::InvalidFee),
        amount_in != 0 && fee_bps <= 10000 && (reserve_in == 0 || reserve_out == 0) ==> r == Err::<
            u64,
            AmmError,
        >(AmmError::EmptyReserve),
        r is Ok <==> amount_in != 0 && fee_bps <= 10000 && reserve_in > 0 && reserve_out > 0,
        r is Ok ==> r->Ok_0 == swap_out(
            reserve_in as int,
            reserve_out as int,
            amount_in as int,
            fee_bps as int,
        ),
        r is Ok ==> r->Ok_0 < reserve_out,
{
    if amount_in == 0 {
        return Err(AmmError::InvalidAmount);
    }
    if fee_bps as u64 > BPS_DENOMINATOR {
        return Err(AmmError::InvalidFee);
    }
    if reserve_in == 0 || reserve_out == 0 {
        return Err(AmmError::EmptyReserve);
    }
    proof {
        lemma_effective_input_bounds(amount_in as int, fee_bps as int);
        lemma_mul_upper_bound(amount_in as int, u64::MAX as int, (10000 - fee_bps) as int, 10000);
        lemma_mul_upper_bound(reserve_in as int, u64::MAX as int, reserve_out as int, u64::MAX as int);
        lemma_reserve_out_after_bounds(reserve_in as int, reserve_out as int, amount_in as int, fee_bps as int);
    }
    let effective: u128 = amount_in as u128 * (BPS_DENOMINATOR - fee_bps as u64) as u128
        / BPS_DENOMINATOR as u128;
    let denominator: u128 = reserve_in as u128 + effective;
    let product: u128 = reserve_in as u128 * reserve_out as u128;
    let kept: u128 = (product + (denominator - 1)) / denominator;
    Ok(reserve_out - kept as u64)
}

} // verus!
