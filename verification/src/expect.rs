//! What each parameter slot of the document accepts: its shape (scalar or
//! two-dimensional), its bounds, whether it must be a whole number, and
//! whether it may be a spatial link to another layer.

use crate::float::{f64_is_finite, f64_is_integral, f64_le, f64_lt, Float64};
use vstd::prelude::*;

verus! {

/// The shape of value a slot holds.
#[derive(Debug, Clone, Copy, PartialEq, Eq, Structural)]
pub enum ParamShape {
    Scalar,
    Vec2,
    /// Any value (plugin and effect parameters, whose meaning the document does
    /// not know).
    Any,
}

/// A bound on the numbers of a slot.
#[derive(Debug, Clone, Copy, PartialEq)]
pub struct Bound {
    pub value: Float64,
    /// The bound itself is allowed.
    pub inclusive: bool,
}

/// The constraints of one parameter slot.
#[derive(Debug, Clone, Copy, PartialEq)]
pub struct ParamConstraints {
    pub shape: ParamShape,
    pub min: Option<Bound>,
    pub max: Option<Bound>,
    pub integer: bool,
    /// The slot may hold a look-at or follow link.
    pub allows_links: bool,
}

/// Why a number does not fit a slot.
#[derive(Debug, Clone, Copy, PartialEq, Eq, Structural)]
pub enum NumberFault {
    NonFinite,
    OutOfRange,
}

/// `x` is on the allowed side of the lower bound.
pub open spec fn above_min(x: u64, min: Option<Bound>) -> bool {
    match min {
        None => true,
        Some(b) => if b.inclusive {
            f64_le(b.value.bits, x)
        } else {
            f64_lt(b.value.bits, x)
        },
    }
}

/// `x` is on the allowed side of the upper bound.
pub open spec fn below_max(x: u64, max: Option<Bound>) -> bool {
    match max {
        None => true,
        Some(b) => if b.inclusive {
            f64_le(x, b.value.bits)
        } else {
            f64_lt(x, b.value.bits)
        },
    }
}

/// What is wrong with the number `x` in a slot with constraints `c`: first
/// that it is not finite, then that it is out of bounds or not whole.
pub open spec fn number_fault(x: u64, c: ParamConstraints) -> Option<NumberFault> {
    if !f64_is_finite(x) {
        Some(NumberFault::NonFinite)
    } else if !above_min(x, c.min) || !below_max(x, c.max) || (c.integer && !f64_is_integral(x)) {
        Some(NumberFault::OutOfRange)
    } else {
        None
    }
}

/// Checks the number `x` against `c`.
pub fn check_number(x: &Float64, c: &ParamConstraints) -> (r: Option<NumberFault>)
    ensures
        r == number_fault(x.bits, *c),
{
    if !x.is_finite() {
        return Some(NumberFault::NonFinite);
    }
    let above = match &c.min {
        None => true,
        Some(b) => if b.inclusive {
            b.value.le(x)
        } else {
            b.value.lt(x)
        },
    };
    let below = match &c.max {
        None => true,
        Some(b) => if b.inclusive {
            x.le(&b.value)
        } else {
            x.lt(&b.value)
        },
    };
    if !above || !below || (c.integer && !x.is_integral()) {
        Some(NumberFault::OutOfRange)
    } else {
        None
    }
}

fn at_least(v: Float64) -> (b: Option<Bound>)
    ensures
        b == Some(Bound { value: v, inclusive: true }),
{
    Some(Bound { value: v, inclusive: true })
}

fn at_most(v: Float64) -> (b: Option<Bound>)
    ensures
        b == Some(Bound { value: v, inclusive: true }),
{
    Some(Bound { value: v, inclusive: true })
}

/// The constraints of a slot of the given shape, bounds and integrality,
/// without links.
pub open spec fn plain(
    shape: ParamShape,
    min: Option<Bound>,
    max: Option<Bound>,
    integer: bool,
) -> ParamConstraints {
    ParamConstraints { shape, min, max, integer, allows_links: false }
}

/// The spec value `v` as an inclusive bound.
pub open spec fn incl(bits: u64) -> Option<Bound> {
    Some(Bound { value: Float64 { bits }, inclusive: true })
}

/// A finite scalar.
pub open spec fn scalar_slot() -> ParamConstraints {
    plain(ParamShape::Scalar, None, None, false)
}

/// A finite scalar of at least zero.
pub open spec fn non_negative_slot() -> ParamConstraints {
    plain(ParamShape::Scalar, incl(0), None, false)
}

/// A finite scalar in `[0, 1]`.
pub open spec fn unit_interval_slot() -> ParamConstraints {
    plain(ParamShape::Scalar, incl(0), incl(0x3FF0_0000_0000_0000), false)
}

/// A finite scalar in `[-1, 1]`.
pub open spec fn signed_unit_slot() -> ParamConstraints {
    plain(ParamShape::Scalar, incl(0xBFF0_0000_0000_0000), incl(0x3FF0_0000_0000_0000), false)
}

/// A finite scalar greater than zero.
pub open spec fn positive_slot() -> ParamConstraints {
    plain(ParamShape::Scalar, Some(Bound { value: Float64 { bits: 0 }, inclusive: false }), None, false)
}

/// A whole number of at least zero.
pub open spec fn count_slot() -> ParamConstraints {
    plain(ParamShape::Scalar, incl(0), None, true)
}

/// A finite point.
pub open spec fn point_slot() -> ParamConstraints {
    plain(ParamShape::Vec2, None, None, false)
}

/// A finite point, or a link following another layer.
pub open spec fn position_slot() -> ParamConstraints {
    ParamConstraints { shape: ParamShape::Vec2, min: None, max: None, integer: false, allows_links: true }
}

/// A finite scalar, or a link looking at another layer.
pub open spec fn rotation_slot() -> ParamConstraints {
    ParamConstraints { shape: ParamShape::Scalar, min: None, max: None, integer: false, allows_links: true }
}

/// Any finite value of any shape.
pub open spec fn any_slot() -> ParamConstraints {
    plain(ParamShape::Any, None, None, false)
}

impl ParamConstraints {
    /// Any finite scalar.
    pub fn scalar_f64() -> (c: ParamConstraints)
        ensures
            c == scalar_slot(),
    {
        ParamConstraints {
            shape: ParamShape::Scalar,
            min: None,
            max: None,
            integer: false,
            allows_links: false,
        }
    }

    /// A finite scalar of at least `min`.
    pub fn min_f64(min: Float64) -> (c: ParamConstraints)
        ensures
            c == plain(ParamShape::Scalar, incl(min.bits), None, false),
    {
        ParamConstraints {
            shape: ParamShape::Scalar,
            min: at_least(min),
            max: None,
            integer: false,
            allows_links: false,
        }
    }

    /// Any finite value of any shape (parameters whose meaning the document
    /// does not know).
    pub fn any() -> (c: ParamConstraints)
        ensures
            c == any_slot(),
    {
        ParamConstraints {
            shape: ParamShape::Any,
            min: None,
            max: None,
            integer: false,
            allows_links: false,
        }
    }
}

/// Opacity of a layer: a scalar in `[0, 1]`.
pub fn envelope_opacity() -> (c: ParamConstraints)
    ensures
        c == unit_interval_slot(),
{
    ParamConstraints {
        shape: ParamShape::Scalar,
        min: at_least(Float64::zero()),
        max: at_most(Float64::one()),
        integer: false,
        allows_links: false,
    }
}

/// Position of a layer: a two-dimensional value, which may follow another layer.
pub fn transform_position() -> (c: ParamConstraints)
    ensures
        c == position_slot(),
{
    ParamConstraints {
        shape: ParamShape::Vec2,
        min: None,
        max: None,
        integer: false,
        allows_links: true,
    }
}

/// Anchor of a layer: a two-dimensional value.
pub fn transform_anchor() -> (c: ParamConstraints)
    ensures
        c == point_slot(),
{
    ParamConstraints {
        shape: ParamShape::Vec2,
        min: None,
        max: None,
        integer: false,
        allows_links: false,
    }
}

/// Scale of a layer: a two-dimensional value.
pub fn transform_scale() -> (c: ParamConstraints)
    ensures
        c == point_slot(),
{
    ParamConstraints {
        shape: ParamShape::Vec2,
        min: None,
        max: None,
        integer: false,
        allows_links: false,
    }
}

/// Rotation of a layer in radians: a scalar, which may look at another layer.
pub fn transform_rotation() -> (c: ParamConstraints)
    ensures
        c == rotation_slot(),
{
    ParamConstraints {
        shape: ParamShape::Scalar,
        min: None,
        max: None,
        integer: false,
        allows_links: true,
    }
}

/// Center of the composition camera: a two-dimensional value.
pub fn planar_camera_center() -> (c: ParamConstraints)
    ensures
        c == point_slot(),
{
    transform_anchor()
}

/// Roll of the composition camera in radians: a scalar.
pub fn planar_camera_roll() -> (c: ParamConstraints)
    ensures
        c == scalar_slot(),
{
    ParamConstraints::scalar_f64()
}

/// Height of the composition camera's view: a positive scalar.
pub fn planar_camera_height() -> (c: ParamConstraints)
    ensures
        c == positive_slot(),
{
    ParamConstraints {
        shape: ParamShape::Scalar,
        min: Some(Bound { value: Float64::zero(), inclusive: false }),
        max: None,
        integer: false,
        allows_links: false,
    }
}

/// A finite scalar of a path operator.
pub fn path_op_scalar() -> (c: ParamConstraints)
    ensures
        c == scalar_slot(),
{
    ParamConstraints::scalar_f64()
}

/// A scalar of a path operator of at least zero.
pub fn path_op_non_negative() -> (c: ParamConstraints)
    ensures
        c == non_negative_slot(),
{
    ParamConstraints::min_f64(Float64::zero())
}

/// A scalar of a path operator in `[0, 1]`.
pub fn path_op_unit_interval() -> (c: ParamConstraints)
    ensures
        c == unit_interval_slot(),
{
    envelope_opacity()
}

/// The pucker/bloat amount: a scalar in `[-1, 1]`.
pub fn path_op_pucker_bloat_amount() -> (c: ParamConstraints)
    ensures
        c == signed_unit_slot(),
{
    ParamConstraints {
        shape: ParamShape::Scalar,
        min: at_least(Float64::minus_one()),
        max: at_most(Float64::one()),
        integer: false,
        allows_links: false,
    }
}

/// A two-dimensional value of a path operator.
pub fn path_op_vec2() -> (c: ParamConstraints)
    ensures
        c == point_slot(),
{
    transform_anchor()
}

/// A whole number of at least zero (repeater copies).
pub fn path_op_non_negative_integer() -> (c: ParamConstraints)
    ensures
        c == count_slot(),
{
    ParamConstraints {
        shape: ParamShape::Scalar,
        min: at_least(Float64::zero()),
        max: None,
        integer: true,
        allows_links: false,
    }
}

/// An opacity of a path operator, in `[0, 1]`.
pub fn path_op_opacity() -> (c: ParamConstraints)
    ensures
        c == unit_interval_slot(),
{
    envelope_opacity()
}

} // verus!
