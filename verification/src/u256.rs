//! 256-bit unsigned integers as the chain represents worker indices,
//! bond amounts and compute-unit figures.

use vstd::prelude::*;

verus! {

/// The largest value of the low half; the high half weighs one more.
pub const LOW_HALF_MAX: u128 = 0xffff_ffff_ffff_ffff_ffff_ffff_ffff_ffff;

/// A 256-bit unsigned integer, split into a high and a low 128-bit half.
#[derive(Clone, Copy, Debug, PartialEq, Eq, Structural, Hash)]
pub struct U256 {
    pub hi: u128,
    pub lo: u128,
}

impl U256 {
    /// The mathematical value: `hi * 2^128 + lo`.
    pub open spec fn as_int(self) -> int {
        self.hi * (LOW_HALF_MAX + 1) + self.lo
    }

    pub fn new(hi: u128, lo: u128) -> (r: U256)
        ensures
            r.hi == hi,
            r.lo == lo,
    {
        U256 { hi, lo }
    }

    pub fn zero() -> (r: U256)
        ensures
            r.as_int() == 0,
    {
        U256 { hi: 0, lo: 0 }
    }

    pub fn from_u64(x: u64) -> (r: U256)
        ensures
            r.as_int() == x,
    {
        U256 { hi: 0, lo: x as u128 }
    }

    pub fn is_zero(&self) -> (r: bool)
        ensures
            r == (self.as_int() == 0),
    {
        proof {
            if self.hi > 0 {
                assert(self.as_int() >= 1 * (LOW_HALF_MAX + 1));
            }
        }
        self.hi == 0 && self.lo == 0
    }

    /// `self - other`, or `None` when the difference would be negative.
    /// Block-number arithmetic in the epoch oracle never wraps.
    pub fn checked_sub(&self, other: &U256) -> (r: Option<U256>)
        ensures
            r is Some <==> self.as_int() >= other.as_int(),
            r matches Some(d) ==> d.as_int() == self.as_int() - other.as_int(),
    {
        proof {
            lemma_halves_order(*self, *other);
        }
        if self.hi < other.hi {
            None
        } else if self.hi == other.hi {
            if self.lo < other.lo {
                None
            } else {
                Some(U256 { hi: 0, lo: self.lo - other.lo })
            }
        } else {
            // self.hi > other.hi
            if self.lo >= other.lo {
                Some(U256 { hi: self.hi - other.hi, lo: self.lo - other.lo })
            } else {
                let lo: u128 = (LOW_HALF_MAX - other.lo) + self.lo + 1;
                Some(U256 { hi: self.hi - other.hi - 1, lo })
            }
        }
    }

    /// The value as a `u64` when it fits, `None` otherwise.
    pub fn try_to_u64(&self) -> (r: Option<u64>)
        ensures
            r is Some <==> self.as_int() <= u64::MAX,
            r matches Some(x) ==> x == self.as_int(),
    {
        proof {
            if self.hi > 0 {
                assert(self.as_int() >= 1 * (LOW_HALF_MAX + 1));
            }
        }
        if self.hi == 0 && self.lo <= u64::MAX as u128 {
            Some(self.lo as u64)
        } else {
            None
        }
    }

    /// The value as a `u32` when it fits, `None` otherwise.
    pub fn try_to_u32(&self) -> (r: Option<u32>)
        ensures
            r is Some <==> self.as_int() <= u32::MAX,
            r matches Some(x) ==> x == self.as_int(),
    {
        proof {
            if self.hi > 0 {
                assert(self.as_int() >= 1 * (LOW_HALF_MAX + 1));
            }
        }
        if self.hi == 0 && self.lo <= u32::MAX as u128 {
            Some(self.lo as u32)
        } else {
            None
        }
    }
}

/// The lexicographic order of the two halves is the numeric order.
proof fn lemma_halves_order(a: U256, b: U256)
    ensures
        a.as_int() >= b.as_int() <==> (a.hi > b.hi || (a.hi == b.hi && a.lo >= b.lo)),
{
    if a.hi > b.hi {
        assert(a.hi * (LOW_HALF_MAX + 1) >= (b.hi + 1) * (LOW_HALF_MAX + 1)) by (nonlinear_arith)
            requires
                a.hi >= b.hi + 1,
        ;
        assert((b.hi + 1) * (LOW_HALF_MAX + 1) == b.hi * (LOW_HALF_MAX + 1) + (LOW_HALF_MAX + 1))
            by (nonlinear_arith);
    } else if a.hi < b.hi {
        assert(b.hi * (LOW_HALF_MAX + 1) >= (a.hi + 1) * (LOW_HALF_MAX + 1)) by (nonlinear_arith)
            requires
                b.hi >= a.hi + 1,
        ;
        assert((a.hi + 1) * (LOW_HALF_MAX + 1) == a.hi * (LOW_HALF_MAX + 1) + (LOW_HALF_MAX + 1))
            by (nonlinear_arith);
    }
}

} // verus!
