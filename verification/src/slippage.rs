//! Amount bounds widened by a slippage tolerance.

use crate::error::PlanError;
use crate::liquidity::{ceil_div, lemma_ceil_div_le, lemma_floor_div_le};
use vstd::prelude::*;

verus! {

/// A slippage tolerance: the fraction `numerator / denominator`.
#[derive(Clone, Copy, Debug, PartialEq, Eq, Structural)]
pub struct Slippage {
    pub numerator: u32,
    pub denominator: u32,
}

impl Slippage {
    /// A tolerance is a fraction with a positive denominator.
    pub open spec fn wf(self) -> bool {
        self.denominator > 0
    }

    /// Whether this tolerance is at most `other`, as fractions.
    pub open spec fn at_most(self, other: Slippage) -> bool {
        self.numerator * other.denominator <= other.numerator * self.denominator
    }

    /// The tolerance `numerator / denominator`, if that is a fraction.
    pub fn new(numerator: u32, denominator: u32) -> (r: Option<Slippage>)
        ensures
            r is Some <==> denominator > 0,
            r is Some ==> r->Some_0 == (Slippage { numerator, denominator }),
    {
        if denominator == 0 {
            None
        } else {
            Some(Slippage { numerator, denominator })
        }
    }
}

/// The most a deposit of `amount` may cost: `amount * (1 + slippage)`,
/// rounded up.
pub open spec fn upper_bound(amount: int, slippage: Slippage) -> int {
    ceil_div(amount * (slippage.denominator + slippage.numerator), slippage.denominator as int)
}

/// The least a withdrawal of `amount` may bring: `amount * (1 - slippage)`,
/// rounded down.
pub open spec fn lower_bound(amount: int, slippage: Slippage) -> int {
    (amount * (slippage.denominator - slippage.numerator)) / (slippage.denominator as int)
}

/// Why a signed amount has no bound under a tolerance, if it has none.
pub open spec fn slippage_error(amount: i128, slippage: Slippage) -> Option<PlanError> {
    if !slippage.wf() {
        Some(PlanError::InvalidSlippage)
    } else if amount > u64::MAX || amount < -(u64::MAX as int) {
        Some(PlanError::Overflow)
    } else if amount >= 0 && upper_bound(amount as int, slippage) > u64::MAX {
        Some(PlanError::Overflow)
    } else if amount < 0 && lower_bound(-(amount as int), slippage) < 0 {
        Some(PlanError::NegativeBound)
    } else {
        None
    }
}

/// The bound of a signed amount under a tolerance: the upper bound of a
/// deposit (an amount that is not negative), the lower bound of the size of
/// a withdrawal (a negative amount).
pub open spec fn slippage_bound(amount: i128, slippage: Slippage) -> int {
    if amount >= 0 {
        upper_bound(amount as int, slippage)
    } else {
        lower_bound(-(amount as int), slippage)
    }
}

/// The bound of a signed amount under a tolerance, or why it has none.
pub open spec fn slippage_result(amount: i128, slippage: Slippage) -> Result<u64, PlanError> {
    match slippage_error(amount, slippage) {
        Some(e) => Err(e),
        None => Ok(slippage_bound(amount, slippage) as u64),
    }
}

/// The bound of a signed amount under a slippage tolerance.
pub fn amount_with_slippage(amount: i128, slippage: Slippage) -> (r: Result<u64, PlanError>)
    ensures
        r == slippage_result(amount, slippage),
        match r {
            Ok(bound) => slippage_error(amount, slippage) is None && bound == slippage_bound(
                amount,
                slippage,
            ),
            Err(e) => slippage_error(amount, slippage) == Some(e),
        },
        r is Ok && amount >= 0 ==> r->Ok_0 >= amount,
        r is Ok && amount < 0 ==> r->Ok_0 <= -amount,
{
    if slippage.denominator == 0 {
        return Err(PlanError::InvalidSlippage);
    }
    if amount > u64::MAX as i128 || amount < -(u64::MAX as i128) {
        return Err(PlanError::Overflow);
    }
    let d: u128 = slippage.denominator as u128;
    let n: u128 = slippage.numerator as u128;
    if amount >= 0 {
        let size: u128 = amount as u128;
        assert(size * (d + n) <= 0xFFFF_FFFF_FFFF_FFFF * 0x2_0000_0000) by (nonlinear_arith)
            requires
                0 <= size <= 0xFFFF_FFFF_FFFF_FFFF,
                0 <= d + n <= 0x2_0000_0000,
        ;
        let scaled: u128 = size * (d + n);
        let bound: u128 = (scaled + d - 1) / d;
        proof {
            lemma_ceil_div_le(scaled as int, d as int, size as int - 1);
            assert((size - 1) * d < size * (d + n)) by (nonlinear_arith)
                requires
                    d > 0,
                    n >= 0,
                    size >= 0,
            ;
        }
        if bound > u64::MAX as u128 {
            return Err(PlanError::Overflow);
        }
        Ok(bound as u64)
    } else {
        let size: u128 = (-amount) as u128;
        if n > d {
            proof {
                assert(size * (d - n) < 0) by (nonlinear_arith)
                    requires
                        size > 0,
                        d - n < 0,
                ;
                lemma_floor_div_le(size * (d - n), d as int, -1);
            }
            return Err(PlanError::NegativeBound);
        }
        assert(0 <= size * (d - n) <= size * d) by (nonlinear_arith)
            requires
                0 <= size,
                0 <= d - n <= d,
        ;
        assert(size * d <= 0xFFFF_FFFF_FFFF_FFFF * 0x1_0000_0000) by (nonlinear_arith)
            requires
                0 <= size <= 0xFFFF_FFFF_FFFF_FFFF,
                0 <= d <= 0x1_0000_0000,
        ;
        let scaled: u128 = size * (d - n);
        let bound: u128 = scaled / d;
        proof {
            lemma_floor_div_le(scaled as int, d as int, size as int);
            assert(size * (d - n) < (size + 1) * d) by (nonlinear_arith)
                requires
                    0 <= size,
                    0 <= d - n <= d,
                    d > 0,
            ;
            lemma_floor_div_le(scaled as int, d as int, -1);
        }
        Ok(bound as u64)
    }
}

/// If `a / b <= c / d` as fractions, the same holds of the quotients
/// rounded down and of the quotients rounded up.
pub proof fn lemma_quotients_monotonic(a: int, b: int, c: int, d: int)
    requires
        b > 0,
        d > 0,
        a * d <= c * b,
    ensures
        a / b <= c / d,
        ceil_div(a, b) <= ceil_div(c, d),
{
    let q = a / b;
    lemma_floor_div_le(a, b, q - 1);
    assert((q - 1 + 1) * b == q * b) by (nonlinear_arith);
    assert(q * d <= c) by (nonlinear_arith)
        requires
            q * b <= a,
            a * d <= c * b,
            b > 0,
            d > 0,
    ;
    lemma_floor_div_le(c, d, q - 1);
    assert((q - 1 + 1) * d == q * d) by (nonlinear_arith);
    let k = ceil_div(c, d);
    lemma_ceil_div_le(c, d, k);
    assert(a <= k * b) by (nonlinear_arith)
        requires
            c <= k * d,
            a * d <= c * b,
            b > 0,
            d > 0,
    ;
    lemma_ceil_div_le(a, b, k);
}

/// A greater tolerance never narrows a bound: the upper bound of a deposit
/// does not fall and the lower bound of a withdrawal does not rise.
pub proof fn lemma_slippage_monotonic(amount: int, smaller: Slippage, greater: Slippage)
    requires
        amount >= 0,
        smaller.wf(),
        greater.wf(),
        smaller.at_most(greater),
    ensures
        upper_bound(amount, smaller) <= upper_bound(amount, greater),
        lower_bound(amount, greater) <= lower_bound(amount, smaller),
{
    let d1 = smaller.denominator as int;
    let n1 = smaller.numerator as int;
    let d2 = greater.denominator as int;
    let n2 = greater.numerator as int;
    assert((amount * (d1 + n1)) * d2 <= (amount * (d2 + n2)) * d1) by (nonlinear_arith)
        requires
            amount >= 0,
            n1 * d2 <= n2 * d1,
    ;
    lemma_quotients_monotonic(amount * (d1 + n1), d1, amount * (d2 + n2), d2);
    assert((amount * (d2 - n2)) * d1 <= (amount * (d1 - n1)) * d2) by (nonlinear_arith)
        requires
            amount >= 0,
            n1 * d2 <= n2 * d1,
    ;
    lemma_quotients_monotonic(amount * (d2 - n2), d2, amount * (d1 - n1), d1);
}

/// With no tolerance the bound is the amount itself.
pub proof fn lemma_zero_slippage(amount: int, slippage: Slippage)
    requires
        amount >= 0,
        slippage.wf(),
        slippage.numerator == 0,
    ensures
        upper_bound(amount, slippage) == amount,
        lower_bound(amount, slippage) == amount,
{
    let d = slippage.denominator as int;
    lemma_ceil_div_le(amount * d, d, amount);
    lemma_ceil_div_le(amount * d, d, amount - 1);
    lemma_floor_div_le(amount * d, d, amount);
    lemma_floor_div_le(amount * d, d, amount - 1);
    assert((amount - 1) * d < amount * d < (amount + 1) * d) by (nonlinear_arith)
        requires
            d > 0,
    ;
    assert((amount - 1 + 1) * d == amount * d) by (nonlinear_arith);
}

} // verus!
