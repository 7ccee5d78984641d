//! Time values of the timeline: exact rational times, frame rates and the
//! per-clip time map.

use vstd::prelude::*;

verus! {

/// Errors of building or combining rational times.
#[derive(Debug, Clone, Copy, PartialEq, Eq, Structural)]
pub enum RationalTimeError {
    NonPositiveDenominator,
    Overflow,
}

/// An exact time `num / den` seconds, with `den > 0`.
#[derive(Debug, Clone, Copy)]
pub struct RationalTime {
    num: i64,
    den: i64,
}

/// The value of `a`, as a numerator and a positive denominator, is at most
/// that of `b`.
pub open spec fn rt_le(a: RationalTime, b: RationalTime) -> bool {
    a.numer() * b.denom() <= b.numer() * a.denom()
}

/// `a` is strictly earlier than `b`.
pub open spec fn rt_lt(a: RationalTime, b: RationalTime) -> bool {
    a.numer() * b.denom() < b.numer() * a.denom()
}

/// `a` and `b` denote the same time.
pub open spec fn rt_same(a: RationalTime, b: RationalTime) -> bool {
    a.numer() * b.denom() == b.numer() * a.denom()
}

/// Numerator of the exact sum `a + b` over the denominator `a.den * b.den`.
pub open spec fn sum_numer(a: RationalTime, b: RationalTime) -> int {
    a.numer() * b.denom() + b.numer() * a.denom()
}

/// Denominator of the exact sum `a + b`.
pub open spec fn sum_denom(a: RationalTime, b: RationalTime) -> int {
    a.denom() * b.denom()
}

/// The exact sum of `a` and `b` can be written with `i64` parts.
pub open spec fn sum_fits(a: RationalTime, b: RationalTime) -> bool {
    i64::MIN <= sum_numer(a, b) <= i64::MAX && sum_denom(a, b) <= i64::MAX
}

/// Any product of two `i64` values lies within `[-2^126, 2^126]`.
proof fn lemma_i64_product_bounds(x: i64, y: i64)
    ensures
        -0x4000_0000_0000_0000_0000_0000_0000_0000int <= x * y
            <= 0x4000_0000_0000_0000_0000_0000_0000_0000int,
{
    assert(-0x4000_0000_0000_0000_0000_0000_0000_0000int <= x * y
        <= 0x4000_0000_0000_0000_0000_0000_0000_0000int) by (nonlinear_arith)
        requires
            -0x8000_0000_0000_0000 <= x <= 0x7FFF_FFFF_FFFF_FFFF,
            -0x8000_0000_0000_0000 <= y <= 0x7FFF_FFFF_FFFF_FFFF,
    ;
}

/// `x * y` computed without overflow.
fn mul_wide(x: i64, y: i64) -> (p: i128)
    ensures
        p == x * y,
        -0x4000_0000_0000_0000_0000_0000_0000_0000int <= p
            <= 0x4000_0000_0000_0000_0000_0000_0000_0000int,
        y > 0 ==> -0x3FFF_FFFF_FFFF_FFFF_8000_0000_0000_0000int <= p
            <= 0x3FFF_FFFF_FFFF_FFFF_8000_0000_0000_0000int,
{
    proof {
        lemma_i64_product_bounds(x, y);
        if y > 0 {
            assert(-0x3FFF_FFFF_FFFF_FFFF_8000_0000_0000_0000int <= x * y
                <= 0x3FFF_FFFF_FFFF_FFFF_8000_0000_0000_0000int) by (nonlinear_arith)
                requires
                    -0x8000_0000_0000_0000 <= x <= 0x7FFF_FFFF_FFFF_FFFF,
                    0 < y <= 0x7FFF_FFFF_FFFF_FFFF,
            ;
        }
    }
    x as i128 * y as i128
}

impl RationalTime {
    #[verifier::type_invariant]
    spec fn positive_denominator(self) -> bool {
        self.den > 0
    }

    pub closed spec fn numer(self) -> int {
        self.num as int
    }

    pub closed spec fn denom(self) -> int {
        self.den as int
    }

    /// Time zero, `0 / 1`.
    pub fn zero() -> (r: RationalTime)
        ensures
            r.numer() == 0,
            r.denom() == 1,
    {
        RationalTime { num: 0, den: 1 }
    }

    /// `num / den`; refused unless `den > 0`.
    pub fn try_new(num: i64, den: i64) -> (r: Result<RationalTime, RationalTimeError>)
        ensures
            den > 0 <==> r is Ok,
            r matches Ok(t) ==> t.numer() == num && t.denom() == den,
            r matches Err(e) ==> e == RationalTimeError::NonPositiveDenominator,
    {
        if den <= 0 {
            Err(RationalTimeError::NonPositiveDenominator)
        } else {
            Ok(RationalTime { num, den })
        }
    }

    pub fn num(&self) -> (n: i64)
        ensures
            n == self.numer(),
    {
        self.num
    }

    pub fn den(&self) -> (d: i64)
        ensures
            d == self.denom(),
            d > 0,
    {
        proof {
            use_type_invariant(self);
        }
        self.den
    }

    /// `self <= other` by value.
    pub fn le(&self, other: &RationalTime) -> (r: bool)
        ensures
            r == rt_le(*self, *other),
    {
        let a = mul_wide(self.num, other.den);
        let b = mul_wide(other.num, self.den);
        a <= b
    }

    /// `self < other` by value.
    pub fn lt(&self, other: &RationalTime) -> (r: bool)
        ensures
            r == rt_lt(*self, *other),
    {
        let a = mul_wide(self.num, other.den);
        let b = mul_wide(other.num, self.den);
        a < b
    }

    /// The exact sum, refused with `Overflow` when it cannot be written with
    /// `i64` numerator and denominator.
    pub fn try_add(&self, other: &RationalTime) -> (r: Result<RationalTime, RationalTimeError>)
        ensures
            r is Ok <==> sum_fits(*self, *other),
            r matches Ok(t) ==> t.numer() == sum_numer(*self, *other) && t.denom() == sum_denom(
                *self,
                *other,
            ),
            r matches Err(e) ==> e == RationalTimeError::Overflow,
    {
        proof {
            use_type_invariant(self);
            use_type_invariant(other);
            assert(self.den * other.den > 0) by (nonlinear_arith)
                requires
                    0 < self.den,
                    0 < other.den,
            ;
        }
        let n = mul_wide(self.num, other.den) + mul_wide(other.num, self.den);
        let d = mul_wide(self.den, other.den);
        if n < i64::MIN as i128 || n > i64::MAX as i128 || d > i64::MAX as i128 {
            Err(RationalTimeError::Overflow)
        } else {
            Ok(RationalTime { num: n as i64, den: d as i64 })
        }
    }
}

impl PartialEq for RationalTime {
    fn eq(&self, other: &Self) -> (r: bool) {
        let a = mul_wide(self.num, other.den);
        let b = mul_wide(other.num, self.den);
        a == b
    }
}

impl vstd::std_specs::cmp::PartialEqSpecImpl for RationalTime {
    open spec fn obeys_eq_spec() -> bool {
        true
    }

    open spec fn eq_spec(&self, other: &RationalTime) -> bool {
        rt_same(*self, *other)
    }
}

/// Errors of building a frame rate.
#[derive(Debug, Clone, Copy, PartialEq, Eq, Structural)]
pub enum FpsError {
    NonPositiveNumerator,
    NonPositiveDenominator,
}

/// A frame rate `num / den` frames per second, both parts positive.
#[derive(Debug, Clone, Copy, PartialEq, Eq, Structural)]
pub struct Fps {
    num: u32,
    den: u32,
}

impl Fps {
    #[verifier::type_invariant]
    spec fn positive_parts(self) -> bool {
        self.num > 0 && self.den > 0
    }

    pub closed spec fn numer(self) -> int {
        self.num as int
    }

    pub closed spec fn denom(self) -> int {
        self.den as int
    }

    /// `num / den` frames per second; both must be positive.
    pub fn try_new(num: u32, den: u32) -> (r: Result<Fps, FpsError>)
        ensures
            r is Ok <==> (num > 0 && den > 0),
            r matches Ok(f) ==> f.numer() == num && f.denom() == den,
            r matches Err(e) ==> (e == FpsError::NonPositiveNumerator <==> num == 0),
    {
        if num == 0 {
            Err(FpsError::NonPositiveNumerator)
        } else if den == 0 {
            Err(FpsError::NonPositiveDenominator)
        } else {
            Ok(Fps { num, den })
        }
    }

    pub fn num(&self) -> (n: u32)
        ensures
            n == self.numer(),
            n > 0,
    {
        proof {
            use_type_invariant(self);
        }
        self.num
    }

    pub fn den(&self) -> (d: u32)
        ensures
            d == self.denom(),
            d > 0,
    {
        proof {
            use_type_invariant(self);
        }
        self.den
    }
}

/// Errors of a clip's time map.
#[derive(Debug, Clone, Copy, PartialEq, Eq, Structural)]
pub enum TimeMapError {
    NonPositiveSpeed,
}

/// How a clip's local time maps to its source: the source time at the clip's
/// start, and the playback speed. The fields are public, so an edit can leave
/// a map that `validate` refuses.
#[derive(Debug, Clone, Copy, PartialEq)]
pub struct TimeMap {
    pub source_offset: RationalTime,
    pub speed: RationalTime,
}

/// A time map is valid when its speed is positive.
pub open spec fn time_map_valid(m: TimeMap) -> bool {
    m.speed.numer() > 0
}

impl TimeMap {
    /// Identity map: offset zero, speed one.
    pub fn identity() -> (m: TimeMap)
        ensures
            m.source_offset.numer() == 0,
            m.speed.numer() == 1,
            m.speed.denom() == 1,
    {
        TimeMap { source_offset: RationalTime::zero(), speed: RationalTime { num: 1, den: 1 } }
    }

    /// `Ok` when the speed is positive; an edit through the public fields can
    /// leave a map this refuses.
    pub fn validate(&self) -> (r: Result<(), TimeMapError>)
        ensures
            r is Ok <==> time_map_valid(*self),
            r matches Err(e) ==> e == TimeMapError::NonPositiveSpeed,
    {
        if self.speed.num() <= 0 {
            Err(TimeMapError::NonPositiveSpeed)
        } else {
            Ok(())
        }
    }
}

impl Default for TimeMap {
    fn default() -> (m: TimeMap)
        ensures
            m.source_offset.numer() == 0,
            m.speed.numer() == 1,
            m.speed.denom() == 1,
    {
        TimeMap::identity()
    }
}

} // verus!
