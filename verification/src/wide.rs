//! Exact products of two 128-bit numbers, for tests on whether a fixed-point
//! result fits its type.

use vstd::prelude::*;

verus! {

/// Two to the power 64.
pub const Q64: u128 = 0x1_0000_0000_0000_0000;

/// Two to the power 128.
pub open spec fn pow2_128() -> int {
    0x1_0000_0000_0000_0000_0000_0000_0000_0000int
}

/// A natural number below two to the 256, as two 128-bit halves.
#[derive(Clone, Copy, Debug, PartialEq, Eq)]
pub struct Wide {
    pub hi: u128,
    pub lo: u128,
}

impl Wide {
    /// The number that the two halves stand for.
    pub open spec fn value(self) -> int {
        self.hi * pow2_128() + self.lo
    }

    /// The exact product of two 128-bit numbers.
    pub fn mul(x: u128, y: u128) -> (r: Wide)
        ensures
            r.value() == x * y,
    {
        let x0: u128 = x % Q64;
        let x1: u128 = x / Q64;
        let y0: u128 = y % Q64;
        let y1: u128 = y / Q64;
        proof {
            lemma_half_product(x0 as int, y0 as int);
            lemma_half_product(x0 as int, y1 as int);
            lemma_half_product(x1 as int, y0 as int);
            lemma_half_product(x1 as int, y1 as int);
        }
        let ll: u128 = x0 * y0;
        let lh: u128 = x0 * y1;
        let hl: u128 = x1 * y0;
        let hh: u128 = x1 * y1;
        let mid: u128 = ll / Q64 + lh % Q64 + hl % Q64;
        let lo: u128 = ll % Q64 + (mid % Q64) * Q64;
        let hi: u128 = hh + lh / Q64 + hl / Q64 + mid / Q64;
        proof {
            lemma_split_product(x as int, y as int, x1 as int, x0 as int, y1 as int, y0 as int);
        }
        Wide { hi, lo }
    }

    /// The number times two to the 64, where that is below two to the 256.
    pub fn shl64(self) -> (r: Wide)
        requires
            self.hi < Q64,
        ensures
            r.value() == self.value() * Q64,
    {
        let hi: u128 = self.hi * Q64 + self.lo / Q64;
        let lo: u128 = (self.lo % Q64) * Q64;
        Wide { hi, lo }
    }

    /// Whether this number is at most `other`.
    pub fn le(self, other: Wide) -> (r: bool)
        ensures
            r == (self.value() <= other.value()),
    {
        self.hi < other.hi || (self.hi == other.hi && self.lo <= other.lo)
    }

    /// Whether this number is below `other`.
    pub fn lt(self, other: Wide) -> (r: bool)
        ensures
            r == (self.value() < other.value()),
    {
        self.hi < other.hi || (self.hi == other.hi && self.lo < other.lo)
    }
}

/// The product of two numbers below two to the 64 is at most the square of
/// the greatest of them.
proof fn lemma_half_product(a: int, b: int)
    requires
        0 <= a < Q64,
        0 <= b < Q64,
    ensures
        0 <= a * b <= (Q64 - 1) * (Q64 - 1),
{
    assert(0 <= a * b <= (Q64 - 1) * (Q64 - 1)) by (nonlinear_arith)
        requires
            0 <= a <= Q64 - 1,
            0 <= b <= Q64 - 1,
    ;
}

/// A product written over the halves of its factors.
proof fn lemma_split_product(x: int, y: int, x1: int, x0: int, y1: int, y0: int)
    requires
        x == x1 * Q64 + x0,
        y == y1 * Q64 + y0,
    ensures
        x * y == (x1 * y1) * pow2_128() + (x0 * y1) * Q64 + (x1 * y0) * Q64 + x0 * y0,
{
    assert(x * y == (x1 * y1) * (Q64 * Q64) + (x0 * y1) * Q64 + (x1 * y0) * Q64 + x0 * y0)
        by (nonlinear_arith)
        requires
            x == x1 * Q64 + x0,
            y == y1 * Q64 + y0,
    ;
}

} // verus!
