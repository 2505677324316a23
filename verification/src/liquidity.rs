//! Liquidity of a single-sided deposit, and the token amounts that a change
//! of liquidity moves.

use crate::error::PlanError;
use crate::wide::{Wide, Q64};
use vstd::prelude::*;

verus! {

/// `n / d` rounded up, for a positive `d`.
pub open spec fn ceil_div(n: int, d: int) -> int {
    (n + d - 1) / d
}

/// The smaller of two numbers.
pub open spec fn lower_of(a: int, b: int) -> int {
    if a <= b {
        a
    } else {
        b
    }
}

/// The greater of two numbers.
pub open spec fn upper_of(a: int, b: int) -> int {
    if a <= b {
        b
    } else {
        a
    }
}

/// Liquidity that `amount` of token 0 buys between the square-root prices
/// `x < y`: `amount * (x * y / 2^64) / (y - x)`, each division rounded down.
pub open spec fn liquidity_from_amount_0(x: int, y: int, amount: int) -> int {
    (amount * ((x * y) / (Q64 as int))) / (y - x)
}

/// Liquidity that `amount` of token 1 buys between the square-root prices
/// `x < y`: `amount * 2^64 / (y - x)`, rounded down.
pub open spec fn liquidity_from_amount_1(x: int, y: int, amount: int) -> int {
    (amount * Q64) / (y - x)
}

/// Whether the liquidity of `amount` of token 0 between `x` and `y` can be
/// computed in 128 bits.
pub open spec fn amount_0_liquidity_fits(x: int, y: int, amount: int) -> bool {
    &&& x < y
    &&& (x * y) / (Q64 as int) <= u128::MAX
    &&& liquidity_from_amount_0(x, y, amount) <= u128::MAX
}

/// Liquidity of a deposit of `amount` of token 0 alone into the range
/// between the square-root prices `a` and `b`, at the current price `p`.
/// Below the range the whole range counts, inside it the part above the
/// current price, above it nothing.
pub open spec fn liquidity_from_single_amount_0_spec(p: int, a: int, b: int, amount: int) -> int {
    let lo = lower_of(a, b);
    let hi = upper_of(a, b);
    if p <= lo {
        liquidity_from_amount_0(lo, hi, amount)
    } else if p < hi {
        liquidity_from_amount_0(p, hi, amount)
    } else {
        0
    }
}

/// Liquidity of a deposit of `amount` of token 1 alone into the range
/// between the square-root prices `a` and `b`, at the current price `p`.
/// Below the range nothing counts, inside it the part below the current
/// price, above it the whole range.
pub open spec fn liquidity_from_single_amount_1_spec(p: int, a: int, b: int, amount: int) -> int {
    let lo = lower_of(a, b);
    let hi = upper_of(a, b);
    if p <= lo {
        0
    } else if p < hi {
        liquidity_from_amount_1(lo, p, amount)
    } else {
        liquidity_from_amount_1(lo, hi, amount)
    }
}

/// Whether the liquidity of a token-0 deposit exists: the range is not
/// empty and no step of the computation leaves 128 bits.
pub open spec fn single_amount_0_fits(p: int, a: int, b: int, amount: int) -> bool {
    let lo = lower_of(a, b);
    let hi = upper_of(a, b);
    &&& a != b
    &&& p < hi ==> amount_0_liquidity_fits(upper_of(p, lo), hi, amount)
}

/// Liquidity of a deposit of `amount` of one token alone, token 0 where
/// `is_base_0`, or why it has none: an empty range, or a step that leaves
/// 128 bits.
pub open spec fn single_amount_result(is_base_0: bool, p: u128, a: u128, b: u128, amount: u64)
    -> Result<u128, PlanError> {
    if a == b {
        Err(PlanError::InvalidTickRange)
    } else if is_base_0 {
        if single_amount_0_fits(p as int, a as int, b as int, amount as int) {
            Ok(liquidity_from_single_amount_0_spec(p as int, a as int, b as int, amount as int) as u128)
        } else {
            Err(PlanError::Overflow)
        }
    } else {
        Ok(liquidity_from_single_amount_1_spec(p as int, a as int, b as int, amount as int) as u128)
    }
}

/// Trusted: `liquidity_math::get_liquidity_from_single_amount_0` computes
/// `liquidity_from_single_amount_0_spec`. It panics where it divides by the
/// width of an empty range and where a step leaves 128 bits; `requires`
/// leaves out every empty range and every such step.
#[verifier::external_body]
fn get_liquidity_from_single_amount_0(p: u128, a: u128, b: u128, amount: u64) -> (r: u128)
    requires
        single_amount_0_fits(p as int, a as int, b as int, amount as int),
    ensures
        r == liquidity_from_single_amount_0_spec(p as int, a as int, b as int, amount as int),
{
    raydium_amm_v3::libraries::liquidity_math::get_liquidity_from_single_amount_0(p, a, b, amount)
}

/// Trusted: `liquidity_math::get_liquidity_from_single_amount_1` computes
/// `liquidity_from_single_amount_1_spec`. It panics where it divides by the
/// width of an empty range; `requires` leaves out every empty range.
#[verifier::external_body]
fn get_liquidity_from_single_amount_1(p: u128, a: u128, b: u128, amount: u64) -> (r: u128)
    requires
        a != b,
    ensures
        r == liquidity_from_single_amount_1_spec(p as int, a as int, b as int, amount as int),
{
    raydium_amm_v3::libraries::liquidity_math::get_liquidity_from_single_amount_1(p, a, b, amount)
}

/// For a positive divisor, a quotient rounded down is at most `k` exactly
/// when the dividend is below `(k + 1) * d`.
pub proof fn lemma_floor_div_le(n: int, d: int, k: int)
    requires
        d > 0,
    ensures
        n / d <= k <==> n < (k + 1) * d,
{
    let q = n / d;
    assert(n == q * d + n % d && 0 <= n % d < d) by (nonlinear_arith)
        requires
            d > 0,
            q == n / d,
    ;
    if q <= k {
        assert(q * d + d <= (k + 1) * d) by (nonlinear_arith)
            requires
                q <= k,
                d > 0,
        ;
    } else {
        assert(q * d >= (k + 1) * d) by (nonlinear_arith)
            requires
                q >= k + 1,
                d > 0,
        ;
    }
}

/// For a positive divisor, a quotient rounded up is at most `k` exactly
/// when the dividend is at most `k * d`.
pub proof fn lemma_ceil_div_le(n: int, d: int, k: int)
    requires
        d > 0,
    ensures
        ceil_div(n, d) <= k <==> n <= k * d,
{
    lemma_floor_div_le(n + d - 1, d, k);
    assert((k + 1) * d == k * d + d) by (nonlinear_arith);
}

/// Whether the liquidity of `amount` of token 0 between `x` and `y` can be
/// computed in 128 bits.
fn check_amount_0_liquidity(x: u128, y: u128, amount: u64) -> (r: bool)
    requires
        x < y,
    ensures
        r == amount_0_liquidity_fits(x as int, y as int, amount as int),
{
    let product = Wide::mul(x, y);
    if product.hi >= Q64 {
        return false;
    }
    let scaled: u128 = product.hi * Q64 + product.lo / Q64;
    assert(scaled == (x * y) / (Q64 as int));
    let numerator = Wide::mul(amount as u128, scaled);
    proof {
        lemma_floor_div_le(amount * scaled, y - x, u128::MAX as int);
    }
    numerator.hi < y - x
}

/// Liquidity of a deposit of `amount` of token 0 alone into the range
/// between the square-root prices `a` and `b`, at the current price `p`.
pub fn liquidity_from_single_amount_0(p: u128, a: u128, b: u128, amount: u64) -> (r: Result<
    u128,
    PlanError,
>)
    ensures
        r == single_amount_result(true, p, a, b, amount),
        r is Ok <==> single_amount_0_fits(p as int, a as int, b as int, amount as int),
        r is Ok ==> r->Ok_0 == liquidity_from_single_amount_0_spec(
            p as int,
            a as int,
            b as int,
            amount as int,
        ),
        r is Err ==> r->Err_0 == (if a == b {
            PlanError::InvalidTickRange
        } else {
            PlanError::Overflow
        }),
{
    if a == b {
        return Err(PlanError::InvalidTickRange);
    }
    let lo: u128 = if a <= b {
        a
    } else {
        b
    };
    let hi: u128 = if a <= b {
        b
    } else {
        a
    };
    if p < hi {
        let from: u128 = if p <= lo {
            lo
        } else {
            p
        };
        if !check_amount_0_liquidity(from, hi, amount) {
            return Err(PlanError::Overflow);
        }
    }
    Ok(get_liquidity_from_single_amount_0(p, a, b, amount))
}

/// Liquidity of a deposit of `amount` of token 1 alone into the range
/// between the square-root prices `a` and `b`, at the current price `p`.
pub fn liquidity_from_single_amount_1(p: u128, a: u128, b: u128, amount: u64) -> (r: Result<
    u128,
    PlanError,
>)
    ensures
        r == single_amount_result(false, p, a, b, amount),
        r is Ok <==> a != b,
        r is Ok ==> r->Ok_0 == liquidity_from_single_amount_1_spec(
            p as int,
            a as int,
            b as int,
            amount as int,
        ),
        r is Err ==> r->Err_0 == PlanError::InvalidTickRange,
{
    if a == b {
        return Err(PlanError::InvalidTickRange);
    }
    Ok(get_liquidity_from_single_amount_1(p, a, b, amount))
}

} // verus!
