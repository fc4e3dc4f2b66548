//! Binary64 (IEEE-754) numbers held by their bit pattern.
//!
//! Amounts, quantities and rates of the documents are binary64 numbers. The
//! library never does arithmetic on them: it carries them from input to
//! record and compares them, with the exact IEEE-754 comparison semantics
//! (any comparison with NaN is false, and -0 equals +0).
use vstd::prelude::*;

verus! {

/// A binary64 number, held by its IEEE-754 bit pattern.
#[derive(Debug, Clone, Copy)]
pub struct Real64 {
    pub bits: u64,
}

/// The sign bit of a binary64 pattern.
pub open spec fn sign_bit() -> u64 {
    0x8000_0000_0000_0000u64
}

/// The pattern without its sign bit: exponent and fraction.
pub open spec fn magnitude(b: u64) -> int {
    if b >= sign_bit() {
        b - sign_bit()
    } else {
        b as int
    }
}

/// Not-a-number: all exponent bits set and a non-zero fraction.
pub open spec fn is_nan_bits(b: u64) -> bool {
    magnitude(b) > 0x7ff0_0000_0000_0000
}

/// An integer that orders the non-NaN binary64 values as the reals they
/// stand for: both zeros map to 0, and larger magnitudes of the same sign
/// lie further from 0.
pub open spec fn order_key(b: u64) -> int {
    if b >= sign_bit() {
        -magnitude(b)
    } else {
        magnitude(b)
    }
}

/// IEEE-754 `a < b`.
pub open spec fn real_lt(a: Real64, b: Real64) -> bool {
    !is_nan_bits(a.bits) && !is_nan_bits(b.bits) && order_key(a.bits) < order_key(b.bits)
}

/// IEEE-754 `a <= b`.
pub open spec fn real_le(a: Real64, b: Real64) -> bool {
    !is_nan_bits(a.bits) && !is_nan_bits(b.bits) && order_key(a.bits) <= order_key(b.bits)
}

/// The pattern of +0.0.
pub open spec fn zero_spec() -> Real64 {
    Real64 { bits: 0 }
}

/// The pattern of 1.0.
pub open spec fn one_spec() -> Real64 {
    Real64 { bits: 0x3ff0_0000_0000_0000 }
}

/// `x > 0`.
pub open spec fn is_positive_spec(x: Real64) -> bool {
    real_lt(zero_spec(), x)
}

/// `x < 0`.
pub open spec fn is_negative_spec(x: Real64) -> bool {
    real_lt(x, zero_spec())
}

/// `0 <= x <= 1`.
pub open spec fn in_unit_interval_spec(x: Real64) -> bool {
    real_le(zero_spec(), x) && real_le(x, one_spec())
}

/// +0.0.
pub fn zero() -> (r: Real64)
    ensures
        r == zero_spec(),
{
    Real64 { bits: 0 }
}

fn key(b: u64) -> (k: i64)
    ensures
        k == order_key(b),
{
    if b >= 0x8000_0000_0000_0000u64 {
        -((b - 0x8000_0000_0000_0000u64) as i64)
    } else {
        b as i64
    }
}

fn is_nan(b: u64) -> (r: bool)
    ensures
        r == is_nan_bits(b),
{
    let m = if b >= 0x8000_0000_0000_0000u64 {
        b - 0x8000_0000_0000_0000u64
    } else {
        b
    };
    m > 0x7ff0_0000_0000_0000u64
}

impl Real64 {
    /// IEEE-754 `self < other`.
    pub fn lt(&self, other: &Real64) -> (r: bool)
        ensures
            r == real_lt(*self, *other),
    {
        !is_nan(self.bits) && !is_nan(other.bits) && key(self.bits) < key(other.bits)
    }

    /// IEEE-754 `self <= other`.
    pub fn le(&self, other: &Real64) -> (r: bool)
        ensures
            r == real_le(*self, *other),
    {
        !is_nan(self.bits) && !is_nan(other.bits) && key(self.bits) <= key(other.bits)
    }

    /// `self > 0`.
    pub fn is_positive(&self) -> (r: bool)
        ensures
            r == is_positive_spec(*self),
    {
        zero().lt(self)
    }

    /// `self < 0`.
    pub fn is_negative(&self) -> (r: bool)
        ensures
            r == is_negative_spec(*self),
    {
        self.lt(&zero())
    }

    /// `0 <= self <= 1`.
    pub fn in_unit_interval(&self) -> (r: bool)
        ensures
            r == in_unit_interval_spec(*self),
    {
        let one = Real64 { bits: 0x3ff0_0000_0000_0000u64 };
        zero().le(self) && self.le(&one)
    }
}

} // verus!
