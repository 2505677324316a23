//! Ticks, square-root prices and tick ranges.

use crate::error::PlanError;
use vstd::prelude::*;

verus! {

/// The lowest tick of the protocol.
pub const MIN_TICK: i32 = -443636;

/// The highest tick of the protocol.
pub const MAX_TICK: i32 = 443636;

/// The square-root price at `MIN_TICK`, as a Q64.64 number.
pub const MIN_SQRT_PRICE_X64: u128 = 4295048016;

/// The square-root price at `MAX_TICK`, as a Q64.64 number.
pub const MAX_SQRT_PRICE_X64: u128 = 79226673521066979257578248091;

/// How many ticks of spacing one tick array spans.
pub const TICK_ARRAY_SIZE: i32 = 60;

/// The Q64.64 square-root price that the protocol assigns to a tick.
pub uninterp spec fn sqrt_price_at_tick(tick: i32) -> u128;

/// The tick that the protocol assigns to a Q64.64 square-root price.
pub uninterp spec fn tick_at_sqrt_price(sqrt_price_x64: u128) -> i32;

/// Whether a tick lies in the protocol's tick range.
pub open spec fn tick_in_range(tick: int) -> bool {
    MIN_TICK <= tick <= MAX_TICK
}

/// Whether a square-root price lies in the domain that has a tick.
pub open spec fn price_in_domain(sqrt_price_x64: int) -> bool {
    MIN_SQRT_PRICE_X64 <= sqrt_price_x64 < MAX_SQRT_PRICE_X64
}

/// A tick moved into the protocol's tick range.
pub open spec fn clamp_tick(tick: int) -> int {
    if tick < MIN_TICK {
        MIN_TICK as int
    } else if tick > MAX_TICK {
        MAX_TICK as int
    } else {
        tick
    }
}

/// The greatest multiple of `step` that is not above `tick`.
pub open spec fn floor_to(tick: int, step: int) -> int {
    (tick / step) * step
}

/// The aligned tick of a square-root price: its tick, moved into the tick
/// range and rounded down to a multiple of the spacing.
pub open spec fn price_to_tick_spec(sqrt_price_x64: u128, tick_spacing: u16) -> int {
    floor_to(clamp_tick(tick_at_sqrt_price(sqrt_price_x64) as int), tick_spacing as int)
}

/// The aligned tick of a square-root price, or why it has none.
pub open spec fn price_to_tick_result(sqrt_price_x64: u128, tick_spacing: u16) -> Result<
    i32,
    PlanError,
> {
    if !price_in_domain(sqrt_price_x64 as int) {
        Err(PlanError::PriceOutOfRange)
    } else if tick_spacing == 0 {
        Err(PlanError::ZeroTickSpacing)
    } else {
        Ok(price_to_tick_spec(sqrt_price_x64, tick_spacing) as i32)
    }
}

/// A range of ticks of a pool, from the lower tick up to the upper.
#[derive(Clone, Copy, Debug, PartialEq, Eq, Structural)]
pub struct TickRange {
    pub lower: i32,
    pub upper: i32,
}

impl TickRange {
    /// A range is valid for a spacing where both ticks lie in the tick
    /// range, the lower below the upper, and both are multiples of the
    /// spacing.
    pub open spec fn wf(self, tick_spacing: u16) -> bool {
        &&& tick_spacing > 0
        &&& tick_in_range(self.lower as int)
        &&& tick_in_range(self.upper as int)
        &&& self.lower < self.upper
        &&& (self.lower as int) % (tick_spacing as int) == 0
        &&& (self.upper as int) % (tick_spacing as int) == 0
    }
}

/// The valid range of two ticks, or why they bound none.
pub open spec fn range_result(tick_lower: i32, tick_upper: i32, tick_spacing: u16) -> Result<
    TickRange,
    PlanError,
> {
    if tick_spacing == 0 {
        Err(PlanError::ZeroTickSpacing)
    } else if !tick_in_range(tick_lower as int) || !tick_in_range(tick_upper as int) {
        Err(PlanError::TickOutOfRange)
    } else if tick_lower >= tick_upper || (tick_lower as int) % (tick_spacing as int) != 0 || (
    tick_upper as int) % (tick_spacing as int) != 0 {
        Err(PlanError::InvalidTickRange)
    } else {
        Ok(TickRange { lower: tick_lower, upper: tick_upper })
    }
}

/// Trusted: the error type of the protocol library, `anchor_lang::error::Error`,
/// of which nothing is read.
#[verifier::external_type_specification]
#[verifier::external_body]
pub struct ExProtocolError(anchor_lang::error::Error);

/// Trusted: `tick_math::get_sqrt_price_at_tick` succeeds on every tick of
/// the tick range, is a function of the tick alone, and returns a price
/// between the two documented extremes.
#[verifier::external_body]
fn get_sqrt_price_at_tick(tick: i32) -> (r: Result<u128, anchor_lang::error::Error>)
    requires
        tick_in_range(tick as int),
    ensures
        r is Ok,
        r->Ok_0 == sqrt_price_at_tick(tick),
        MIN_SQRT_PRICE_X64 <= r->Ok_0 <= MAX_SQRT_PRICE_X64,
{
    raydium_amm_v3::libraries::tick_math::get_sqrt_price_at_tick(tick)
}

/// Whether `tick` is the greatest tick whose square-root price is at most
/// `sqrt_price_x64`: its own price is, and the price of the next tick, if
/// there is one, is not.
pub open spec fn brackets(tick: i32, sqrt_price_x64: u128) -> bool {
    &&& tick_in_range(tick as int)
    &&& sqrt_price_at_tick(tick) <= sqrt_price_x64
    &&& tick < MAX_TICK ==> sqrt_price_x64 < sqrt_price_at_tick((tick + 1) as i32)
}

/// Trusted: `tick_math::get_tick_at_sqrt_price` succeeds exactly on the
/// prices from the minimum up to, but not including, the maximum, is a
/// function of the price alone, and returns, as it documents, the greatest
/// tick whose price is at most the given one.
#[verifier::external_body]
fn get_tick_at_sqrt_price(sqrt_price_x64: u128) -> (r: Result<i32, anchor_lang::error::Error>)
    ensures
        r is Ok <==> price_in_domain(sqrt_price_x64 as int),
        r is Ok ==> r->Ok_0 == tick_at_sqrt_price(sqrt_price_x64),
        r is Ok ==> brackets(r->Ok_0, sqrt_price_x64),
{
    raydium_amm_v3::libraries::tick_math::get_tick_at_sqrt_price(sqrt_price_x64)
}

/// Trusted: `TickArrayState::get_array_start_index` rounds the tick down to
/// a multiple of sixty spacings. `requires` keeps its `i32` arithmetic from
/// overflow and its division from zero.
#[verifier::external_body]
fn get_array_start_index(tick_index: i32, tick_spacing: u16) -> (r: i32)
    requires
        tick_spacing > 0,
        tick_in_range(tick_index as int),
    ensures
        r == floor_to(tick_index as int, TICK_ARRAY_SIZE * tick_spacing),
{
    raydium_amm_v3::states::TickArrayState::get_array_start_index(tick_index, tick_spacing)
}

/// Rounding down lands on a multiple of the step, at most one step below.
pub proof fn lemma_floor_to(tick: int, step: int)
    requires
        step > 0,
    ensures
        floor_to(tick, step) % step == 0,
        floor_to(tick, step) <= tick < floor_to(tick, step) + step,
        floor_to(floor_to(tick, step), step) == floor_to(tick, step),
{
    let q = tick / step;
    assert(tick == q * step + tick % step && 0 <= tick % step < step) by (nonlinear_arith)
        requires
            step > 0,
            q == tick / step,
    ;
    assert((q * step) % step == 0 && (q * step) / step == q) by (nonlinear_arith)
        requires
            step > 0,
    ;
}

/// The square-root price of a tick.
pub fn tick_to_sqrt_price(tick: i32) -> (r: Result<u128, PlanError>)
    ensures
        r is Ok <==> tick_in_range(tick as int),
        r is Ok ==> r == Ok::<u128, PlanError>(sqrt_price_at_tick(tick)),
        r is Ok ==> MIN_SQRT_PRICE_X64 <= r->Ok_0 <= MAX_SQRT_PRICE_X64,
        r is Err ==> r == Err::<u128, PlanError>(PlanError::TickOutOfRange),
{
    if tick < MIN_TICK || tick > MAX_TICK {
        return Err(PlanError::TickOutOfRange);
    }
    match get_sqrt_price_at_tick(tick) {
        Ok(price) => Ok(price),
        Err(_) => Err(PlanError::TickOutOfRange),
    }
}

/// The tick of a square-root price.
pub fn sqrt_price_to_tick(sqrt_price_x64: u128) -> (r: Result<i32, PlanError>)
    ensures
        r is Ok <==> price_in_domain(sqrt_price_x64 as int),
        r is Ok ==> r == Ok::<i32, PlanError>(tick_at_sqrt_price(sqrt_price_x64)),
        r is Ok ==> brackets(r->Ok_0, sqrt_price_x64),
        r is Err ==> r == Err::<i32, PlanError>(PlanError::PriceOutOfRange),
{
    match get_tick_at_sqrt_price(sqrt_price_x64) {
        Ok(tick) => Ok(tick),
        Err(_) => Err(PlanError::PriceOutOfRange),
    }
}

/// Moves a tick into the tick range and rounds it down to a multiple of the
/// spacing.
pub fn tick_with_spacing(tick: i32, tick_spacing: u16) -> (r: Result<i32, PlanError>)
    ensures
        r is Ok <==> tick_spacing > 0,
        r is Ok ==> r->Ok_0 == floor_to(clamp_tick(tick as int), tick_spacing as int),
        r is Ok ==> (r->Ok_0 as int) % (tick_spacing as int) == 0,
        r is Ok ==> r->Ok_0 <= clamp_tick(tick as int) < r->Ok_0 + tick_spacing,
        r is Err ==> r == Err::<i32, PlanError>(PlanError::ZeroTickSpacing),
{
    if tick_spacing == 0 {
        return Err(PlanError::ZeroTickSpacing);
    }
    let clamped: i32 = if tick < MIN_TICK {
        MIN_TICK
    } else if tick > MAX_TICK {
        MAX_TICK
    } else {
        tick
    };
    let step: i32 = tick_spacing as i32;
    proof {
        lemma_floor_to(clamped as int, step as int);
        let q = clamped as int / step as int;
        assert(-443636 <= q <= 443636) by (nonlinear_arith)
            requires
                q * step <= clamped < q * step + step,
                -443636 <= clamped <= 443636,
                0 < step,
        ;
    }
    match clamped.checked_div_euclid(step) {
        Some(quotient) => {
            assert(-443636 - 65535 <= quotient * step <= 443636) by (nonlinear_arith)
                requires
                    quotient * step <= clamped < quotient * step + step,
                    -443636 <= clamped <= 443636,
                    0 < step <= 65535,
            ;
            Ok(quotient * step)
        },
        None => Err(PlanError::ZeroTickSpacing),
    }
}

/// The aligned tick of a square-root price.
pub fn price_to_tick(sqrt_price_x64: u128, tick_spacing: u16) -> (r: Result<i32, PlanError>)
    ensures
        r == price_to_tick_result(sqrt_price_x64, tick_spacing),
        r is Ok ==> r->Ok_0 == price_to_tick_spec(sqrt_price_x64, tick_spacing),
        r is Ok ==> (r->Ok_0 as int) % (tick_spacing as int) == 0,
        r is Ok ==> MIN_TICK - tick_spacing < r->Ok_0 <= MAX_TICK,
        r is Ok ==> brackets(tick_at_sqrt_price(sqrt_price_x64), sqrt_price_x64),
        r is Ok ==> r->Ok_0 <= tick_at_sqrt_price(sqrt_price_x64) < r->Ok_0 + tick_spacing,
{
    let tick = sqrt_price_to_tick(sqrt_price_x64)?;
    tick_with_spacing(tick, tick_spacing)
}

impl TickRange {
    /// The range of two ticks of a pool with the given spacing, if they
    /// bound a valid one.
    pub fn new(tick_lower: i32, tick_upper: i32, tick_spacing: u16) -> (r: Result<TickRange, PlanError>)
        ensures
            r == range_result(tick_lower, tick_upper, tick_spacing),
            r is Ok ==> r->Ok_0.wf(tick_spacing),
    {
        if tick_spacing == 0 {
            return Err(PlanError::ZeroTickSpacing);
        }
        if tick_lower < MIN_TICK || tick_lower > MAX_TICK || tick_upper < MIN_TICK || tick_upper
            > MAX_TICK {
            return Err(PlanError::TickOutOfRange);
        }
        if tick_lower >= tick_upper {
            return Err(PlanError::InvalidTickRange);
        }
        let step: i32 = tick_spacing as i32;
        let lower_rest = tick_lower.checked_rem_euclid(step);
        let upper_rest = tick_upper.checked_rem_euclid(step);
        match (lower_rest, upper_rest) {
            (Some(a), Some(b)) => {
                if a != 0 || b != 0 {
                    Err(PlanError::InvalidTickRange)
                } else {
                    Ok(TickRange { lower: tick_lower, upper: tick_upper })
                }
            },
            _ => Err(PlanError::InvalidTickRange),
        }
    }
}

/// The start index of the tick array that holds a tick.
pub fn tick_array_start_index(tick_index: i32, tick_spacing: u16) -> (r: Result<i32, PlanError>)
    ensures
        r is Ok <==> tick_spacing > 0 && tick_in_range(tick_index as int),
        r is Ok ==> r->Ok_0 == floor_to(tick_index as int, TICK_ARRAY_SIZE * tick_spacing),
        r is Err ==> r->Err_0 == (if tick_spacing == 0 {
            PlanError::ZeroTickSpacing
        } else {
            PlanError::TickOutOfRange
        }),
{
    if tick_spacing == 0 {
        return Err(PlanError::ZeroTickSpacing);
    }
    if tick_index < MIN_TICK || tick_index > MAX_TICK {
        return Err(PlanError::TickOutOfRange);
    }
    Ok(get_array_start_index(tick_index, tick_spacing))
}

} // verus!
