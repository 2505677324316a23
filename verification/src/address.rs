//! Account addresses and their order.

use vstd::prelude::*;

verus! {

/// A 32-byte account address.
#[derive(Clone, Copy, Debug, PartialEq, Eq, Hash)]
pub struct Address {
    pub bytes: [u8; 32],
}

impl View for Address {
    type V = Seq<u8>;

    open spec fn view(&self) -> Seq<u8> {
        self.bytes@
    }
}

/// The view of an optional address.
pub open spec fn opt_view(a: Option<Address>) -> Option<Seq<u8>> {
    match a {
        Some(x) => Some(x@),
        None => None,
    }
}

/// Byte-wise lexicographic order on sequences of equal length: `a` comes
/// strictly before `b`.
pub open spec fn precedes(a: Seq<u8>, b: Seq<u8>) -> bool {
    exists|i: int|
        0 <= i < a.len() && i < b.len() && a[i] < b[i] && forall|j: int|
            0 <= j < i ==> a[j] == b[j]
}

/// The all-zero sequence of 32 bytes.
pub open spec fn zero_bytes() -> Seq<u8> {
    Seq::new(32, |i: int| 0u8)
}

/// Two addresses with the same bytes are the same address.
pub proof fn lemma_view_injective(a: Address, b: Address)
    requires
        a@ == b@,
    ensures
        a == b,
{
    assert(a.bytes =~= b.bytes) by {
        assert forall|i: int| 0 <= i < 32 implies a.bytes[i] == b.bytes[i] by {
            assert(a@[i] == b@[i]);
        }
    }
}

/// No sequence precedes itself, and of two sequences at most one precedes
/// the other.
pub proof fn lemma_precedes_asymmetric(a: Seq<u8>, b: Seq<u8>)
    ensures
        !(precedes(a, b) && precedes(b, a)),
{
    if precedes(a, b) && precedes(b, a) {
        let i = choose|i: int|
            0 <= i < a.len() && i < b.len() && a[i] < b[i] && forall|j: int|
                0 <= j < i ==> a[j] == b[j];
        let k = choose|k: int|
            0 <= k < b.len() && k < a.len() && b[k] < a[k] && forall|j: int|
                0 <= j < k ==> b[j] == a[j];
        if i < k {
            assert(b[i] == a[i]);
        } else if k < i {
            assert(a[k] == b[k]);
        }
    }
}

/// Two sequences of equal length agree on their first `n` places, or one of
/// them precedes the other.
proof fn lemma_prefix_or_ordered(a: Seq<u8>, b: Seq<u8>, n: int)
    requires
        a.len() == b.len(),
        0 <= n <= a.len(),
    ensures
        precedes(a, b) || precedes(b, a) || forall|j: int| 0 <= j < n ==> a[j] == b[j],
    decreases n,
{
    if n > 0 {
        lemma_prefix_or_ordered(a, b, n - 1);
        if !precedes(a, b) && !precedes(b, a) {
            let i = n - 1;
            if a[i] < b[i] {
                assert(0 <= i < a.len() && i < b.len() && a[i] < b[i] && forall|j: int|
                    0 <= j < i ==> a[j] == b[j]);
            } else if b[i] < a[i] {
                assert(0 <= i < b.len() && i < a.len() && b[i] < a[i] && forall|j: int|
                    0 <= j < i ==> b[j] == a[j]);
            }
        }
    }
}

/// The order is total on sequences of equal length.
pub proof fn lemma_precedes_total(a: Seq<u8>, b: Seq<u8>)
    requires
        a.len() == b.len(),
    ensures
        precedes(a, b) || precedes(b, a) || a == b,
{
    lemma_prefix_or_ordered(a, b, a.len() as int);
    if !precedes(a, b) && !precedes(b, a) {
        assert(a =~= b);
    }
}

impl Address {
    /// The address whose bytes are all zero, which stands for "no account".
    pub fn zero() -> (r: Address)
        ensures
            r@ == zero_bytes(),
    {
        let r = Address { bytes: [0u8; 32] };
        assert(r@ =~= zero_bytes());
        r
    }

    /// Whether this is the all-zero address.
    pub fn is_zero(&self) -> (r: bool)
        ensures
            r == (self@ == zero_bytes()),
    {
        let mut i: usize = 0;
        while i < 32
            invariant
                0 <= i <= 32,
                forall|j: int| 0 <= j < i ==> self.bytes[j] == 0,
            decreases 32 - i,
        {
            if self.bytes[i] != 0 {
                assert(self@[i as int] != zero_bytes()[i as int]);
                return false;
            }
            i += 1;
        }
        assert(self@ =~= zero_bytes());
        true
    }

    /// Whether two addresses are the same.
    pub fn equals(&self, other: &Address) -> (r: bool)
        ensures
            r == (*self == *other),
            r == (self@ == other@),
    {
        let mut i: usize = 0;
        while i < 32
            invariant
                0 <= i <= 32,
                forall|j: int| 0 <= j < i ==> self.bytes[j] == other.bytes[j],
            decreases 32 - i,
        {
            if self.bytes[i] != other.bytes[i] {
                assert(self@[i as int] != other@[i as int]);
                return false;
            }
            i += 1;
        }
        assert(self@ =~= other@);
        proof {
            lemma_view_injective(*self, *other);
        }
        true
    }

    /// Whether this address comes strictly before `other` in byte-wise
    /// lexicographic order.
    pub fn is_before(&self, other: &Address) -> (r: bool)
        ensures
            r == precedes(self@, other@),
    {
        let mut i: usize = 0;
        while i < 32
            invariant
                0 <= i <= 32,
                forall|j: int| 0 <= j < i ==> self.bytes[j] == other.bytes[j],
            decreases 32 - i,
        {
            if self.bytes[i] < other.bytes[i] {
                assert(0 <= i < self@.len() && i < other@.len() && self@[i as int] < other@[i as int]
                    && forall|j: int| 0 <= j < i ==> self@[j] == other@[j]);
                return true;
            }
            if self.bytes[i] > other.bytes[i] {
                proof {
                    lemma_precedes_asymmetric(self@, other@);
                    assert(0 <= i < other@.len() && i < self@.len() && other@[i as int]
                        < self@[i as int] && forall|j: int| 0 <= j < i ==> other@[j] == self@[j]);
                }
                return false;
            }
            i += 1;
        }
        proof {
            assert(self@ =~= other@);
            lemma_precedes_asymmetric(self@, other@);
        }
        false
    }

    /// The bytes of the address as a vector.
    pub fn to_vec(&self) -> (r: Vec<u8>)
        ensures
            r@ == self@,
    {
        let mut out: Vec<u8> = Vec::new();
        let mut i: usize = 0;
        while i < 32
            invariant
                0 <= i <= 32,
                out@.len() == i,
                forall|j: int| 0 <= j < i ==> out@[j] == self.bytes[j],
            decreases 32 - i,
        {
            out.push(self.bytes[i]);
            i += 1;
        }
        assert(out@ =~= self@);
        out
    }
}

impl Default for Address {
    fn default() -> (r: Address)
        ensures
            r@ == zero_bytes(),
    {
        Address::zero()
    }
}

} // verus!
