//! The token amounts that a change of a position's liquidity moves.

use crate::error::PlanError;
use crate::liquidity::{ceil_div, lemma_ceil_div_le, lemma_floor_div_le, lower_of, upper_of};
use crate::slippage::lemma_quotients_monotonic;
use crate::tick::{sqrt_price_at_tick, tick_in_range, tick_to_sqrt_price};
use crate::wide::{pow2_128, Wide, Q64};
use vstd::prelude::*;

verus! {

/// The first quotient on the way to an amount of token 0:
/// `liquidity * 2^64 * (hi - lo) / hi`.
pub open spec fn amount_0_step(lo: int, hi: int, liquidity: int, round_up: bool) -> int {
    let n = liquidity * Q64 * (hi - lo);
    if round_up {
        ceil_div(n, hi)
    } else {
        n / hi
    }
}

/// Amount of token 0 that `liquidity` is worth between the square-root
/// prices `lo <= hi`: `liquidity * 2^64 * (hi - lo) / hi / lo`, both
/// divisions rounded the same way.
pub open spec fn delta_amount_0(lo: int, hi: int, liquidity: int, round_up: bool) -> int {
    let step = amount_0_step(lo, hi, liquidity, round_up);
    if round_up {
        ceil_div(step, lo)
    } else {
        step / lo
    }
}

/// Amount of token 1 that `liquidity` is worth between the square-root
/// prices `lo <= hi`: `liquidity * (hi - lo) / 2^64`.
pub open spec fn delta_amount_1(lo: int, hi: int, liquidity: int, round_up: bool) -> int {
    let n = liquidity * (hi - lo);
    if round_up {
        ceil_div(n, Q64 as int)
    } else {
        n / (Q64 as int)
    }
}

/// Whether an amount of token 0 can be computed: the lower price is
/// positive, the first quotient fits 128 bits and the amount 64.
pub open spec fn delta_amount_0_fits(lo: int, hi: int, liquidity: int, round_up: bool) -> bool {
    &&& lo > 0
    &&& amount_0_step(lo, hi, liquidity, round_up) <= u128::MAX
    &&& delta_amount_0(lo, hi, liquidity, round_up) <= u64::MAX
}

/// Whether an amount of token 1 fits 64 bits.
pub open spec fn delta_amount_1_fits(lo: int, hi: int, liquidity: int, round_up: bool) -> bool {
    delta_amount_1(lo, hi, liquidity, round_up) <= u64::MAX
}

/// Where the current tick lies with respect to a tick range.
#[derive(Clone, Copy, Debug, PartialEq, Eq, Structural)]
pub enum Side {
    /// Below the lower tick: the range holds token 0 alone.
    Below,
    /// From the lower tick up to, not including, the upper: both tokens.
    Inside,
    /// At or above the upper tick: the range holds token 1 alone.
    Above,
}

/// The side of a range on which the current tick lies.
pub open spec fn side_of(tick_current: i32, tick_lower: i32, tick_upper: i32) -> Side {
    if tick_current < tick_lower {
        Side::Below
    } else if tick_current < tick_upper {
        Side::Inside
    } else {
        Side::Above
    }
}

/// The amounts of both tokens that `liquidity` is worth in a tick range,
/// at the pool's current tick and square-root price.
pub open spec fn delta_amounts(
    tick_current: i32,
    price: u128,
    tick_lower: i32,
    tick_upper: i32,
    liquidity: int,
    round_up: bool,
) -> (int, int) {
    let pl = sqrt_price_at_tick(tick_lower) as int;
    let pu = sqrt_price_at_tick(tick_upper) as int;
    let p = price as int;
    match side_of(tick_current, tick_lower, tick_upper) {
        Side::Below => (
            delta_amount_0(lower_of(pl, pu), upper_of(pl, pu), liquidity, round_up),
            0,
        ),
        Side::Inside => (
            delta_amount_0(lower_of(p, pu), upper_of(p, pu), liquidity, round_up),
            delta_amount_1(lower_of(pl, p), upper_of(pl, p), liquidity, round_up),
        ),
        Side::Above => (
            0,
            delta_amount_1(lower_of(pl, pu), upper_of(pl, pu), liquidity, round_up),
        ),
    }
}

/// Whether both amounts of `delta_amounts` can be computed.
pub open spec fn delta_amounts_fit(
    tick_current: i32,
    price: u128,
    tick_lower: i32,
    tick_upper: i32,
    liquidity: int,
    round_up: bool,
) -> bool {
    let pl = sqrt_price_at_tick(tick_lower) as int;
    let pu = sqrt_price_at_tick(tick_upper) as int;
    let p = price as int;
    match side_of(tick_current, tick_lower, tick_upper) {
        Side::Below => delta_amount_0_fits(lower_of(pl, pu), upper_of(pl, pu), liquidity, round_up),
        Side::Inside => {
            &&& delta_amount_0_fits(lower_of(p, pu), upper_of(p, pu), liquidity, round_up)
            &&& delta_amount_1_fits(lower_of(pl, p), upper_of(pl, p), liquidity, round_up)
        },
        Side::Above => delta_amount_1_fits(lower_of(pl, pu), upper_of(pl, pu), liquidity, round_up),
    }
}

/// The size of a signed change of liquidity.
pub open spec fn magnitude(liquidity_delta: i128) -> int {
    if liquidity_delta < 0 {
        -(liquidity_delta as int)
    } else {
        liquidity_delta as int
    }
}

/// Why the amounts of a change of liquidity cannot be had, if they cannot.
pub open spec fn delta_error(
    tick_current: i32,
    price: u128,
    tick_lower: i32,
    tick_upper: i32,
    liquidity_delta: i128,
) -> Option<PlanError> {
    if !tick_in_range(tick_lower as int) || !tick_in_range(tick_upper as int) {
        Some(PlanError::TickOutOfRange)
    } else if tick_lower >= tick_upper {
        Some(PlanError::InvalidTickRange)
    } else if side_of(tick_current, tick_lower, tick_upper) == Side::Inside && !(sqrt_price_at_tick(
        tick_lower,
    ) <= price <= sqrt_price_at_tick(tick_upper)) {
        Some(PlanError::PriceTickMismatch)
    } else if liquidity_delta == i128::MIN || !delta_amounts_fit(
        tick_current,
        price,
        tick_lower,
        tick_upper,
        magnitude(liquidity_delta),
        liquidity_delta >= 0,
    ) {
        Some(PlanError::Overflow)
    } else {
        None
    }
}

/// The signed amounts that a change of liquidity moves, or why they cannot
/// be had: the sizes of `delta_amounts`, rounded up and counted positive
/// for a deposit, rounded down and counted negative for a withdrawal.
pub open spec fn delta_amounts_result(
    tick_current: i32,
    price: u128,
    tick_lower: i32,
    tick_upper: i32,
    liquidity_delta: i128,
) -> Result<(i128, i128), PlanError> {
    match delta_error(tick_current, price, tick_lower, tick_upper, liquidity_delta) {
        Some(e) => Err(e),
        None => {
            let sizes = delta_amounts(
                tick_current,
                price,
                tick_lower,
                tick_upper,
                magnitude(liquidity_delta),
                liquidity_delta >= 0,
            );
            if liquidity_delta >= 0 {
                Ok((sizes.0 as i128, sizes.1 as i128))
            } else {
                Ok(((-sizes.0) as i128, (-sizes.1) as i128))
            }
        },
    }
}

/// Trusted: `liquidity_math::get_delta_amounts_signed` returns the two
/// amounts of `delta_amounts` for the size of the change, rounded up for a
/// deposit and down for a withdrawal. It fails on a tick outside the tick
/// range and panics where an amount cannot be computed; `requires` leaves
/// both out.
#[verifier::external_body]
fn get_delta_amounts_signed(
    tick_current: i32,
    price: u128,
    tick_lower: i32,
    tick_upper: i32,
    liquidity_delta: i128,
) -> (r: Result<(u64, u64), anchor_lang::error::Error>)
    requires
        tick_in_range(tick_lower as int),
        tick_in_range(tick_upper as int),
        liquidity_delta > i128::MIN,
        delta_amounts_fit(
            tick_current,
            price,
            tick_lower,
            tick_upper,
            magnitude(liquidity_delta),
            liquidity_delta >= 0,
        ),
    ensures
        r is Ok,
        r->Ok_0.0 == delta_amounts(
            tick_current,
            price,
            tick_lower,
            tick_upper,
            magnitude(liquidity_delta),
            liquidity_delta >= 0,
        ).0,
        r->Ok_0.1 == delta_amounts(
            tick_current,
            price,
            tick_lower,
            tick_upper,
            magnitude(liquidity_delta),
            liquidity_delta >= 0,
        ).1,
{
    raydium_amm_v3::libraries::liquidity_math::get_delta_amounts_signed(
        tick_current,
        price,
        tick_lower,
        tick_upper,
        liquidity_delta,
    )
}

/// A dividend of at least `k * d` has a quotient of at least `k`.
proof fn lemma_div_ge(n: int, d: int, k: int)
    requires
        d > 0,
        n >= k * d,
    ensures
        n / d >= k,
{
    lemma_floor_div_le(n, d, k - 1);
    assert((k - 1 + 1) * d == k * d) by (nonlinear_arith);
}

/// A quotient rounded up is the quotient rounded down, or one more.
pub proof fn lemma_rounding_gap(n: int, d: int)
    requires
        d > 0,
    ensures
        n / d <= ceil_div(n, d) <= n / d + 1,
{
    let q = n / d;
    lemma_floor_div_le(n, d, q);
    lemma_floor_div_le(n, d, q - 1);
    lemma_floor_div_le(n + d - 1, d, q + 1);
    lemma_floor_div_le(n + d - 1, d, q - 1);
    assert((q + 1 + 1) * d == (q + 1) * d + d) by (nonlinear_arith);
    assert((q - 1 + 1) * d == q * d) by (nonlinear_arith);
}

/// Sign symmetry of a change of liquidity: between the same prices, the
/// deposit and the withdrawal of the same liquidity move amounts of the
/// same size up to rounding. No size is negative, and the size of the
/// deposit is that of the withdrawal or one unit more.
pub proof fn lemma_delta_amounts_symmetric(lo: int, hi: int, liquidity: int)
    requires
        0 < lo <= hi,
        liquidity >= 0,
    ensures
        0 <= delta_amount_0(lo, hi, liquidity, false) <= delta_amount_0(lo, hi, liquidity, true)
            <= delta_amount_0(lo, hi, liquidity, false) + 1,
        0 <= delta_amount_1(lo, hi, liquidity, false) <= delta_amount_1(lo, hi, liquidity, true)
            <= delta_amount_1(lo, hi, liquidity, false) + 1,
{
    let n0 = liquidity * Q64 * (hi - lo);
    assert(n0 >= 0) by (nonlinear_arith)
        requires
            n0 == liquidity * Q64 * (hi - lo),
            liquidity >= 0,
            hi - lo >= 0,
    ;
    let down = n0 / hi;
    let up = ceil_div(n0, hi);
    lemma_div_ge(n0, hi, 0);
    lemma_rounding_gap(n0, hi);
    lemma_div_ge(down, lo, 0);
    // Rounded down twice is at most rounded up twice.
    assert(down * lo <= up * lo) by (nonlinear_arith)
        requires
            down <= up,
            lo > 0,
    ;
    lemma_quotients_monotonic(down, lo, up, lo);
    lemma_rounding_gap(up, lo);
    // Rounded up twice is at most one more than rounded down twice.
    assert(up * lo <= (down + 1) * lo) by (nonlinear_arith)
        requires
            up <= down + 1,
            lo > 0,
    ;
    lemma_quotients_monotonic(up, lo, down + 1, lo);
    lemma_floor_div_le(down + lo, lo, down / lo + 1);
    lemma_floor_div_le(down, lo, down / lo);
    assert((down / lo + 1 + 1) * lo == (down / lo + 1) * lo + lo) by (nonlinear_arith);

    let n1 = liquidity * (hi - lo);
    assert(n1 >= 0) by (nonlinear_arith)
        requires
            n1 == liquidity * (hi - lo),
            liquidity >= 0,
            hi - lo >= 0,
    ;
    lemma_div_ge(n1, Q64 as int, 0);
    lemma_rounding_gap(n1, Q64 as int);
}

/// Whether an amount of token 0 can be computed.
fn check_amount_0(lo: u128, hi: u128, liquidity: u128, round_up: bool) -> (r: bool)
    requires
        0 < lo <= hi,
    ensures
        r == delta_amount_0_fits(lo as int, hi as int, liquidity as int, round_up),
{
    let product = Wide::mul(liquidity, hi - lo);
    let ghost n: int = liquidity * Q64 * (hi - lo);
    assert(n == product.value() * Q64) by (nonlinear_arith)
        requires
            n == liquidity * Q64 * (hi - lo),
            product.value() == liquidity * (hi - lo),
    ;
    let ghost step: int = amount_0_step(lo as int, hi as int, liquidity as int, round_up);
    if product.hi >= Q64 {
        proof {
            assert(n >= pow2_128() * pow2_128());
            assert(pow2_128() * hi <= n) by (nonlinear_arith)
                requires
                    n >= pow2_128() * pow2_128(),
                    0 < hi < pow2_128(),
            ;
            lemma_div_ge(n, hi as int, pow2_128());
            lemma_div_ge(n + hi - 1, hi as int, pow2_128());
        }
        return false;
    }
    let numerator = product.shl64();
    assert(numerator.value() == n);
    if round_up {
        let bound: u128 = match lo.checked_mul(u64::MAX as u128) {
            Some(v) => v,
            None => u128::MAX,
        };
        let limit = Wide::mul(bound, hi);
        proof {
            lemma_ceil_div_le(step, lo as int, u64::MAX as int);
            lemma_ceil_div_le(n, hi as int, bound as int);
        }
        numerator.le(limit)
    } else {
        let limit = match lo.checked_mul(Q64) {
            Some(c) => {
                proof {
                    lemma_floor_div_le(n, hi as int, c - 1);
                }
                Wide::mul(c, hi)
            },
            None => {
                proof {
                    lemma_floor_div_le(n, hi as int, u128::MAX as int);
                }
                Wide { hi: hi, lo: 0 }
            },
        };
        proof {
            lemma_floor_div_le(step, lo as int, u64::MAX as int);
        }
        numerator.lt(limit)
    }
}

/// Whether an amount of token 1 fits 64 bits.
fn check_amount_1(lo: u128, hi: u128, liquidity: u128, round_up: bool) -> (r: bool)
    requires
        lo <= hi,
    ensures
        r == delta_amount_1_fits(lo as int, hi as int, liquidity as int, round_up),
{
    let product = Wide::mul(liquidity, hi - lo);
    if product.hi != 0 {
        false
    } else if round_up {
        product.lo <= u128::MAX - (Q64 - 1)
    } else {
        true
    }
}

/// The token amounts that a signed change of a position's liquidity moves,
/// at the pool's current tick and square-root price. A deposit
/// (`liquidity_delta >= 0`) gives amounts that are not negative, rounded
/// up; a withdrawal gives amounts that are not positive, rounded down in
/// size.
pub fn delta_amounts_signed(
    tick_current: i32,
    sqrt_price_x64_current: u128,
    tick_lower: i32,
    tick_upper: i32,
    liquidity_delta: i128,
) -> (r: Result<(i128, i128), PlanError>)
    ensures
        r == delta_amounts_result(
            tick_current,
            sqrt_price_x64_current,
            tick_lower,
            tick_upper,
            liquidity_delta,
        ),
        match r {
            Ok(amounts) => {
                let sizes = delta_amounts(
                    tick_current,
                    sqrt_price_x64_current,
                    tick_lower,
                    tick_upper,
                    magnitude(liquidity_delta),
                    liquidity_delta >= 0,
                );
                &&& delta_error(
                    tick_current,
                    sqrt_price_x64_current,
                    tick_lower,
                    tick_upper,
                    liquidity_delta,
                ) is None
                &&& 0 <= sizes.0 <= u64::MAX
                &&& 0 <= sizes.1 <= u64::MAX
                &&& liquidity_delta >= 0 ==> amounts.0 == sizes.0 && amounts.1 == sizes.1
                &&& liquidity_delta < 0 ==> amounts.0 == -sizes.0 && amounts.1 == -sizes.1
            },
            Err(e) => delta_error(
                tick_current,
                sqrt_price_x64_current,
                tick_lower,
                tick_upper,
                liquidity_delta,
            ) == Some(e),
        },
        r is Ok && liquidity_delta >= 0 ==> r->Ok_0.0 >= 0 && r->Ok_0.1 >= 0,
        r is Ok && liquidity_delta < 0 ==> r->Ok_0.0 <= 0 && r->Ok_0.1 <= 0,
{
    if tick_lower < crate::tick::MIN_TICK || tick_lower > crate::tick::MAX_TICK || tick_upper
        < crate::tick::MIN_TICK || tick_upper > crate::tick::MAX_TICK {
        return Err(PlanError::TickOutOfRange);
    }
    if tick_lower >= tick_upper {
        return Err(PlanError::InvalidTickRange);
    }
    let pl = match tick_to_sqrt_price(tick_lower) {
        Ok(v) => v,
        Err(e) => {
            return Err(PlanError::TickOutOfRange);
        },
    };
    let pu = match tick_to_sqrt_price(tick_upper) {
        Ok(v) => v,
        Err(e) => {
            return Err(PlanError::TickOutOfRange);
        },
    };
    let p = sqrt_price_x64_current;
    let inside = tick_lower <= tick_current && tick_current < tick_upper;
    if inside && !(pl <= p && p <= pu) {
        return Err(PlanError::PriceTickMismatch);
    }
    if liquidity_delta == i128::MIN {
        return Err(PlanError::Overflow);
    }
    let round_up = liquidity_delta >= 0;
    let size: u128 = if liquidity_delta < 0 {
        (-liquidity_delta) as u128
    } else {
        liquidity_delta as u128
    };
    let lo: u128 = if pl <= pu {
        pl
    } else {
        pu
    };
    let hi: u128 = if pl <= pu {
        pu
    } else {
        pl
    };
    let fits = if tick_current < tick_lower {
        check_amount_0(lo, hi, size, round_up)
    } else if tick_current < tick_upper {
        check_amount_0(p, pu, size, round_up) && check_amount_1(pl, p, size, round_up)
    } else {
        check_amount_1(lo, hi, size, round_up)
    };
    if !fits {
        return Err(PlanError::Overflow);
    }
    match get_delta_amounts_signed(
        tick_current,
        sqrt_price_x64_current,
        tick_lower,
        tick_upper,
        liquidity_delta,
    ) {
        Ok(sizes) => {
            if liquidity_delta >= 0 {
                Ok((sizes.0 as i128, sizes.1 as i128))
            } else {
                Ok((-(sizes.0 as i128), -(sizes.1 as i128)))
            }
        },
        Err(_) => Err(PlanError::Overflow),
    }
}

} // verus!
