//! IEEE-754 binary64 values held by their bit pattern.
//!
//! The document stores numbers as 64-bit floats. Here a number is kept as the
//! exact bit pattern of that float, and the predicates the document checks
//! (finite, NaN, ordering, integrality) are decided from the bits.

use vstd::prelude::*;

verus! {

/// Weight of the sign bit.
pub const SIGN_BIT: u64 = 0x8000_0000_0000_0000;

/// Weight of the lowest exponent bit (2^52).
pub const EXPONENT_UNIT: u64 = 0x0010_0000_0000_0000;

/// Exponent field of infinities and NaNs.
pub const EXPONENT_ALL_ONES: u64 = 0x7FF;

/// `true` when the sign bit of `b` is set.
pub open spec fn sign_set(b: u64) -> bool {
    b >= SIGN_BIT
}

/// The bits below the sign bit.
pub open spec fn magnitude(b: u64) -> int {
    (b % SIGN_BIT) as int
}

/// The 11-bit biased exponent field.
pub open spec fn exponent_field(b: u64) -> int {
    magnitude(b) / (EXPONENT_UNIT as int)
}

/// The 52-bit fraction field.
pub open spec fn fraction_field(b: u64) -> int {
    magnitude(b) % (EXPONENT_UNIT as int)
}

pub open spec fn f64_is_nan(b: u64) -> bool {
    exponent_field(b) == EXPONENT_ALL_ONES && fraction_field(b) != 0
}

/// Neither infinite nor NaN.
pub open spec fn f64_is_finite(b: u64) -> bool {
    exponent_field(b) != EXPONENT_ALL_ONES
}

/// For values that are not NaN, the numeric order of the floats is the order of
/// this key: the magnitude bits grow with the absolute value, and the sign flips
/// them. Both zeros have key 0.
pub open spec fn f64_order_key(b: u64) -> int {
    if sign_set(b) {
        -magnitude(b)
    } else {
        magnitude(b)
    }
}

/// `a <= b` on floats (false when either is NaN).
pub open spec fn f64_le(a: u64, b: u64) -> bool {
    !f64_is_nan(a) && !f64_is_nan(b) && f64_order_key(a) <= f64_order_key(b)
}

/// `a < b` on floats (false when either is NaN).
pub open spec fn f64_lt(a: u64, b: u64) -> bool {
    !f64_is_nan(a) && !f64_is_nan(b) && f64_order_key(a) < f64_order_key(b)
}

/// `a == b` on floats: NaN equals nothing, and the two zeros are equal.
pub open spec fn f64_eq(a: u64, b: u64) -> bool {
    !f64_is_nan(a) && !f64_is_nan(b) && f64_order_key(a) == f64_order_key(b)
}

/// The lowest `k` bits of `f` are all zero.
pub open spec fn low_bits_zero(f: int, k: nat) -> bool
    decreases k,
{
    if k == 0 {
        true
    } else {
        f % 2 == 0 && low_bits_zero(f / 2, (k - 1) as nat)
    }
}

/// A finite float whose value is a whole number. A normal float with biased
/// exponent `e` is `(2^52 + fraction) * 2^(e - 1075)`; it is whole when
/// `e >= 1075`, or when `1023 <= e < 1075` and the low `1075 - e` fraction bits
/// are zero. Below `e = 1023` only the zeros are whole.
pub open spec fn f64_is_integral(b: u64) -> bool {
    &&& f64_is_finite(b)
    &&& {
        ||| magnitude(b) == 0
        ||| exponent_field(b) >= 1075
        ||| (exponent_field(b) >= 1023 && low_bits_zero(
            fraction_field(b),
            (1075 - exponent_field(b)) as nat,
        ))
    }
}

/// A 64-bit float, held by its bit pattern.
#[derive(Debug, Clone, Copy)]
pub struct Float64 {
    pub bits: u64,
}

impl PartialEq for Float64 {
    fn eq(&self, other: &Self) -> (r: bool) {
        self.float_eq(other)
    }
}

impl vstd::std_specs::cmp::PartialEqSpecImpl for Float64 {
    open spec fn obeys_eq_spec() -> bool {
        true
    }

    open spec fn eq_spec(&self, other: &Float64) -> bool {
        f64_eq(self.bits, other.bits)
    }
}

impl Float64 {
    /// The float with the given bit pattern.
    pub fn from_bits(bits: u64) -> (r: Float64)
        ensures
            r.bits == bits,
    {
        Float64 { bits }
    }

    pub fn to_bits(&self) -> (b: u64)
        ensures
            b == self.bits,
    {
        self.bits
    }

    /// `+0.0`.
    pub fn zero() -> (r: Float64)
        ensures
            r.bits == 0,
    {
        Float64 { bits: 0 }
    }

    /// `1.0`.
    pub fn one() -> (r: Float64)
        ensures
            r.bits == 0x3FF0_0000_0000_0000,
    {
        Float64 { bits: 0x3FF0_0000_0000_0000 }
    }

    /// `-1.0`.
    pub fn minus_one() -> (r: Float64)
        ensures
            r.bits == 0xBFF0_0000_0000_0000,
    {
        Float64 { bits: 0xBFF0_0000_0000_0000 }
    }

    /// `4.0`.
    pub fn four() -> (r: Float64)
        ensures
            r.bits == 0x4010_0000_0000_0000,
    {
        Float64 { bits: 0x4010_0000_0000_0000 }
    }

    pub fn is_nan(&self) -> (r: bool)
        ensures
            r == f64_is_nan(self.bits),
    {
        let m = self.bits % SIGN_BIT;
        m / EXPONENT_UNIT == EXPONENT_ALL_ONES && m % EXPONENT_UNIT != 0
    }

    pub fn is_finite(&self) -> (r: bool)
        ensures
            r == f64_is_finite(self.bits),
    {
        (self.bits % SIGN_BIT) / EXPONENT_UNIT != EXPONENT_ALL_ONES
    }

    /// The order key of `f64_order_key`, in exec form.
    fn order_key(&self) -> (k: i64)
        ensures
            k == f64_order_key(self.bits),
    {
        let m = self.bits % SIGN_BIT;
        if self.bits >= SIGN_BIT {
            -(m as i64)
        } else {
            m as i64
        }
    }

    /// `self <= other` as floats.
    pub fn le(&self, other: &Float64) -> (r: bool)
        ensures
            r == f64_le(self.bits, other.bits),
    {
        !self.is_nan() && !other.is_nan() && self.order_key() <= other.order_key()
    }

    /// `self < other` as floats.
    pub fn lt(&self, other: &Float64) -> (r: bool)
        ensures
            r == f64_lt(self.bits, other.bits),
    {
        !self.is_nan() && !other.is_nan() && self.order_key() < other.order_key()
    }

    /// `self == other` as floats.
    pub fn float_eq(&self, other: &Float64) -> (r: bool)
        ensures
            r == f64_eq(self.bits, other.bits),
    {
        !self.is_nan() && !other.is_nan() && self.order_key() == other.order_key()
    }

    /// Whether the value is finite and a whole number.
    pub fn is_integral(&self) -> (r: bool)
        ensures
            r == f64_is_integral(self.bits),
    {
        if !self.is_finite() {
            return false;
        }
        let m = self.bits % SIGN_BIT;
        let e = m / EXPONENT_UNIT;
        let f = m % EXPONENT_UNIT;
        if m == 0 || e >= 1075 {
            return true;
        }
        if e < 1023 {
            return false;
        }
        let k: u64 = 1075 - e;
        let mut rest = f;
        let mut i: u64 = 0;
        while i < k
            invariant
                i <= k,
                k == 1075 - e,
                e == exponent_field(self.bits),
                f == fraction_field(self.bits),
                magnitude(self.bits) != 0,
                f64_is_finite(self.bits),
                1023 <= e < 1075,
                low_bits_zero(f as int, k as nat) == low_bits_zero(rest as int, (k - i) as nat),
            decreases k - i,
        {
            if rest % 2 != 0 {
                return false;
            }
            rest = rest / 2;
            i = i + 1;
        }
        true
    }
}

} // verus!
