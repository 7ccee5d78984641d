//! Checks of parameter values against the constraints of their slots, and of
//! the parameter-bearing parts of the document: transforms, the composition
//! camera, vector contents and path operators.

use crate::document::{and_then, knows_layer, result_view, Document, DocumentError, DocumentErrorView};
use crate::expect::{
    check_number, count_slot, non_negative_slot, number_fault, path_op_non_negative,
    path_op_non_negative_integer, path_op_opacity, path_op_pucker_bloat_amount, path_op_scalar,
    path_op_unit_interval, path_op_vec2, planar_camera_center, planar_camera_height,
    planar_camera_roll, point_slot, position_slot, positive_slot, rotation_slot, scalar_slot,
    signed_unit_slot, transform_anchor, transform_position, transform_rotation, transform_scale,
    unit_interval_slot, NumberFault, ParamConstraints, ParamShape,
};
use crate::float::{f64_is_finite, f64_le, Float64};
use crate::param::{DocParam, DocValue, Keyframe};
use crate::schema::{CompCameraDoc, PathOp, StandardShape, Transform2D, VectorContent};
use crate::text::{decimal, join, join_indexed};
use vstd::prelude::*;
use vstd::string::*;

verus! {

/// The result of checking the number `x` at `path`.
pub open spec fn number_result(x: u64, c: ParamConstraints, path: Seq<char>) -> Result<
    (),
    DocumentErrorView,
> {
    match number_fault(x, c) {
        None => Ok(()),
        Some(NumberFault::NonFinite) => Err(DocumentErrorView::NonFiniteValue { path }),
        Some(NumberFault::OutOfRange) => Err(DocumentErrorView::ValueOutOfRange { path }),
    }
}

/// The kind of a value does not fit the slot.
pub open spec fn mismatch(path: Seq<char>) -> Result<(), DocumentErrorView> {
    Err(DocumentErrorView::ParamKindMismatch { path })
}

/// The result of checking one value: a scalar where no point is required, a
/// point where no scalar is required (each coordinate checked), an asset
/// reference only in an unconstrained slot.
pub open spec fn value_result(v: DocValue, c: ParamConstraints, path: Seq<char>) -> Result<
    (),
    DocumentErrorView,
> {
    match v {
        DocValue::F64(x) => if c.shape == ParamShape::Vec2 {
            mismatch(path)
        } else {
            number_result(x.bits, c, path)
        },
        DocValue::Vec2(x, y) => if c.shape == ParamShape::Scalar {
            mismatch(path)
        } else {
            and_then(number_result(x.bits, c, path), number_result(y.bits, c, path))
        },
        DocValue::AssetRef(_) => if c.shape == ParamShape::Any {
            Ok(())
        } else {
            mismatch(path)
        },
    }
}

/// The first failing key among the first `n` keys of a track.
pub open spec fn keys_result(
    keys: Seq<Keyframe>,
    n: nat,
    c: ParamConstraints,
    path: Seq<char>,
) -> Result<(), DocumentErrorView>
    decreases n,
{
    if n == 0 {
        Ok(())
    } else {
        and_then(
            keys_result(keys, (n - 1) as nat, c, path),
            value_result(keys[n - 1].value, c, path),
        )
    }
}

/// Once a key fails, the result of the track is that failure.
pub proof fn lemma_keys_failure_sticks(
    keys: Seq<Keyframe>,
    n: nat,
    m: nat,
    c: ParamConstraints,
    path: Seq<char>,
)
    requires
        n <= m,
        keys_result(keys, n, c, path) is Err,
    ensures
        keys_result(keys, m, c, path) == keys_result(keys, n, c, path),
    decreases m,
{
    if m > n {
        lemma_keys_failure_sticks(keys, n, (m - 1) as nat, c, path);
    }
}

/// The constraints of one axis of a point slot.
pub open spec fn axis_constraints(c: ParamConstraints) -> ParamConstraints {
    ParamConstraints { shape: ParamShape::Scalar, allows_links: false, ..c }
}

/// A look-at or follow link: allowed only where the slot allows links, and
/// its target must be a registered layer.
pub open spec fn link_result(
    doc: Document,
    target: u64,
    c: ParamConstraints,
    path: Seq<char>,
) -> Result<(), DocumentErrorView> {
    if !c.allows_links {
        mismatch(path)
    } else if !knows_layer(doc, target) {
        Err(DocumentErrorView::UnknownLayerId { id: target })
    } else {
        Ok(())
    }
}

/// The result of checking a parameter in a slot with constraints `c`.
pub open spec fn param_result(
    doc: Document,
    p: DocParam,
    c: ParamConstraints,
    path: Seq<char>,
) -> Result<(), DocumentErrorView>
    decreases p,
{
    match p {
        DocParam::Const(v) => value_result(v, c, path),
        DocParam::Keyframes(track) => keys_result(track.keys@, track.keys@.len(), c, path),
        DocParam::Data { track: _, fallback } => value_result(fallback, c, path),
        DocParam::Vec2Axes { x, y } => if c.shape == ParamShape::Scalar {
            mismatch(path)
        } else {
            and_then(
                param_result(doc, *x, axis_constraints(c), path + ".x"@),
                param_result(doc, *y, axis_constraints(c), path + ".y"@),
            )
        },
        DocParam::LookAt { target, axis: _ } => link_result(doc, target.raw, c, path),
        DocParam::Follow { target, offset: _ } => link_result(doc, target.raw, c, path),
    }
}

fn error_non_finite(path: &str) -> (r: Result<(), DocumentError>)
    ensures
        result_view(r) == Err::<(), DocumentErrorView>(
            DocumentErrorView::NonFiniteValue { path: path@ },
        ),
{
    Err(DocumentError::NonFiniteValue { path: String::from_str(path) })
}

fn error_out_of_range(path: &str) -> (r: Result<(), DocumentError>)
    ensures
        result_view(r) == Err::<(), DocumentErrorView>(
            DocumentErrorView::ValueOutOfRange { path: path@ },
        ),
{
    Err(DocumentError::ValueOutOfRange { path: String::from_str(path) })
}

fn error_mismatch(path: &str) -> (r: Result<(), DocumentError>)
    ensures
        result_view(r) == mismatch(path@),
{
    Err(DocumentError::ParamKindMismatch { path: String::from_str(path) })
}

fn check_number_at(x: u64, c: &ParamConstraints, path: &str) -> (r: Result<(), DocumentError>)
    ensures
        result_view(r) == number_result(x, *c, path@),
{
    match check_number(&crate::float::Float64 { bits: x }, c) {
        None => Ok(()),
        Some(NumberFault::NonFinite) => error_non_finite(path),
        Some(NumberFault::OutOfRange) => error_out_of_range(path),
    }
}

/// Checks one value against the constraints of its slot.
pub fn validate_value(v: &DocValue, c: &ParamConstraints, path: &str) -> (r: Result<
    (),
    DocumentError,
>)
    ensures
        result_view(r) == value_result(*v, *c, path@),
{
    match v {
        DocValue::F64(x) => match c.shape {
            ParamShape::Vec2 => error_mismatch(path),
            _ => check_number_at(x.bits, c, path),
        },
        DocValue::Vec2(x, y) => match c.shape {
            ParamShape::Scalar => error_mismatch(path),
            _ => {
                let rx = check_number_at(x.bits, c, path);
                if rx.is_err() {
                    return rx;
                }
                check_number_at(y.bits, c, path)
            },
        },
        DocValue::AssetRef(_) => match c.shape {
            ParamShape::Any => Ok(()),
            _ => error_mismatch(path),
        },
    }
}

fn check_link(doc: &Document, target: u64, c: &ParamConstraints, path: &str) -> (r: Result<
    (),
    DocumentError,
>)
    ensures
        result_view(r) == link_result(*doc, target, *c, path@),
{
    if !c.allows_links {
        return error_mismatch(path);
    }
    if !doc.layers.registry.contains_raw(target) {
        return Err(DocumentError::UnknownLayerId { id: target });
    }
    Ok(())
}

/// Checks a parameter against the constraints of its slot: every value it
/// can take (its constant, each key, its fallback, each axis) and its links.
pub fn validate_param(doc: &Document, param: &DocParam, c: ParamConstraints, path: &str) -> (r:
    Result<(), DocumentError>)
    ensures
        result_view(r) == param_result(*doc, *param, c, path@),
    decreases param,
{
    match param {
        DocParam::Const(v) => validate_value(v, &c, path),
        DocParam::Keyframes(track) => {
            let keys = track.keys();
            let mut i: usize = 0;
            while i < keys.len()
                invariant
                    i <= keys@.len(),
                    keys@ == track.keys@,
                    param_result(*doc, *param, c, path@) == keys_result(
                        keys@,
                        keys@.len(),
                        c,
                        path@,
                    ),
                    keys_result(keys@, i as nat, c, path@) == Ok::<(), DocumentErrorView>(()),
                decreases keys.len() - i,
            {
                let r = validate_value(&keys[i].value, &c, path);
                if r.is_err() {
                    proof {
                        lemma_keys_failure_sticks(keys@, (i + 1) as nat, keys@.len(), c, path@);
                    }
                    return r;
                }
                i = i + 1;
            }
            Ok(())
        },
        DocParam::Data { track: _, fallback } => validate_value(fallback, &c, path),
        DocParam::Vec2Axes { x, y } => {
            if let ParamShape::Scalar = c.shape {
                return error_mismatch(path);
            }
            let axis = ParamConstraints { shape: ParamShape::Scalar, allows_links: false, ..c };
            let px = join(path, ".x");
            let rx = validate_param(doc, x, axis, px.as_str());
            if rx.is_err() {
                return rx;
            }
            let py = join(path, ".y");
            validate_param(doc, y, axis, py.as_str())
        },
        DocParam::LookAt { target, axis: _ } => check_link(doc, target.raw, &c, path),
        DocParam::Follow { target, offset: _ } => check_link(doc, target.raw, &c, path),
    }
}

/// Checks the parameter at `base` followed by `suffix`.
fn validate_param_at(
    doc: &Document,
    param: &DocParam,
    c: ParamConstraints,
    base: &str,
    suffix: &str,
) -> (r: Result<(), DocumentError>)
    ensures
        result_view(r) == param_result(*doc, *param, c, base@ + suffix@),
{
    let path = join(base, suffix);
    validate_param(doc, param, c, path.as_str())
}

/// The result of checking the slots of a transform whose path is `base`.
pub open spec fn transform_result(doc: Document, t: Transform2D, base: Seq<char>) -> Result<
    (),
    DocumentErrorView,
> {
    and_then(
        param_result(doc, t.position, position_slot(), base + ".position"@),
        and_then(
            param_result(doc, t.anchor, point_slot(), base + ".anchor"@),
            and_then(
                param_result(doc, t.scale, point_slot(), base + ".scale"@),
                and_then(
                    param_result(doc, t.rotation, rotation_slot(), base + ".rotation"@),
                    param_result(doc, t.z, scalar_slot(), base + ".z"@),
                ),
            ),
        ),
    )
}

/// Checks the slots of a transform: position, anchor, scale, rotation, depth.
/// Shared by layer envelopes and repeaters.
pub fn validate_transform2d(doc: &Document, t: &Transform2D, base: &str) -> (r: Result<
    (),
    DocumentError,
>)
    ensures
        result_view(r) == transform_result(*doc, *t, base@),
{
    let r = validate_param_at(doc, &t.position, transform_position(), base, ".position");
    if r.is_err() {
        return r;
    }
    let r = validate_param_at(doc, &t.anchor, transform_anchor(), base, ".anchor");
    if r.is_err() {
        return r;
    }
    let r = validate_param_at(doc, &t.scale, transform_scale(), base, ".scale");
    if r.is_err() {
        return r;
    }
    let r = validate_param_at(doc, &t.rotation, transform_rotation(), base, ".rotation");
    if r.is_err() {
        return r;
    }
    validate_param_at(doc, &t.z, crate::expect::ParamConstraints::scalar_f64(), base, ".z")
}

/// The result of checking the composition camera at `path`.
pub open spec fn camera_result(doc: Document, camera: CompCameraDoc, path: Seq<char>) -> Result<
    (),
    DocumentErrorView,
> {
    match camera {
        CompCameraDoc::PlanarOrthographic { center, roll_radians, height } => and_then(
            param_result(doc, center, point_slot(), path + ".center"@),
            and_then(
                param_result(doc, roll_radians, scalar_slot(), path + ".roll_radians"@),
                param_result(doc, height, positive_slot(), path + ".height"@),
            ),
        ),
    }
}

/// Checks the composition camera: a finite center, a finite roll, a positive
/// height.
pub fn validate_comp_camera_doc(doc: &Document, camera: &CompCameraDoc, path: &str) -> (r: Result<
    (),
    DocumentError,
>)
    ensures
        result_view(r) == camera_result(*doc, *camera, path@),
{
    match camera {
        CompCameraDoc::PlanarOrthographic { center, roll_radians, height } => {
            let r = validate_param_at(doc, center, planar_camera_center(), path, ".center");
            if r.is_err() {
                return r;
            }
            let r = validate_param_at(doc, roll_radians, planar_camera_roll(), path, ".roll_radians");
            if r.is_err() {
                return r;
            }
            validate_param_at(doc, height, planar_camera_height(), path, ".height")
        },
    }
}

/// The number of children of a vector group (zero for other contents).
pub open spec fn content_children_len(c: VectorContent) -> nat {
    match c {
        VectorContent::Group { children } => children@.len(),
        _ => 0,
    }
}

/// The path of the `i`-th child of the content at `path`.
pub open spec fn child_path(path: Seq<char>, i: int) -> Seq<char> {
    path + ".children"@ + "["@ + decimal(i as nat) + "]"@ + ""@
}

/// The result of checking vector content at `path`: the sizes of standard
/// shapes are finite scalars; groups are checked child by child.
pub open spec fn content_result(doc: Document, c: VectorContent, path: Seq<char>) -> Result<
    (),
    DocumentErrorView,
>
    decreases c, content_children_len(c) + 1,
{
    match c {
        VectorContent::StandardShape { shape } => match shape {
            StandardShape::Rect { width, height } => and_then(
                param_result(doc, width, scalar_slot(), path + ".width"@),
                param_result(doc, height, scalar_slot(), path + ".height"@),
            ),
            StandardShape::Ellipse { width, height } => and_then(
                param_result(doc, width, scalar_slot(), path + ".width"@),
                param_result(doc, height, scalar_slot(), path + ".height"@),
            ),
        },
        VectorContent::SvgAsset { .. } => Ok(()),
        VectorContent::TextPath { .. } => Ok(()),
        VectorContent::Group { children } => group_children_result(doc, c, children@.len(), path),
    }
}

/// The first failing child among the first `n` children of the vector group
/// `g`.
pub open spec fn group_children_result(
    doc: Document,
    g: VectorContent,
    n: nat,
    path: Seq<char>,
) -> Result<(), DocumentErrorView>
    decreases g, n,
{
    match g {
        VectorContent::Group { children } => if n == 0 || n > children@.len() {
            Ok(())
        } else {
            and_then(
                group_children_result(doc, g, (n - 1) as nat, path),
                content_result(doc, children@[n - 1], child_path(path, n - 1)),
            )
        },
        _ => Ok(()),
    }
}

/// Once a child fails, the result of the group is that failure.
pub proof fn lemma_children_failure_sticks(
    doc: Document,
    g: VectorContent,
    n: nat,
    m: nat,
    path: Seq<char>,
)
    requires
        n <= m <= content_children_len(g),
        group_children_result(doc, g, n, path) is Err,
    ensures
        group_children_result(doc, g, m, path) == group_children_result(doc, g, n, path),
    decreases m,
{
    if m > n {
        lemma_children_failure_sticks(doc, g, n, (m - 1) as nat, path);
    }
}

/// Checks vector content: standard shape sizes, and group children in order.
pub fn validate_vector_content(doc: &Document, content: &VectorContent, path: &str) -> (r: Result<
    (),
    DocumentError,
>)
    ensures
        result_view(r) == content_result(*doc, *content, path@),
    decreases content,
{
    match content {
        VectorContent::StandardShape { shape } => match shape {
            StandardShape::Rect { width, height } => {
                let r = validate_param_at(doc, width, path_op_scalar(), path, ".width");
                if r.is_err() {
                    return r;
                }
                validate_param_at(doc, height, path_op_scalar(), path, ".height")
            },
            StandardShape::Ellipse { width, height } => {
                let r = validate_param_at(doc, width, path_op_scalar(), path, ".width");
                if r.is_err() {
                    return r;
                }
                validate_param_at(doc, height, path_op_scalar(), path, ".height")
            },
        },
        VectorContent::SvgAsset { .. } => Ok(()),
        VectorContent::TextPath { .. } => Ok(()),
        VectorContent::Group { children } => {
            let mut i: usize = 0;
            while i < children.len()
                invariant
                    i <= children@.len(),
                    *content == (VectorContent::Group { children: *children }),
                    content_result(*doc, *content, path@) == group_children_result(
                        *doc,
                        *content,
                        children@.len(),
                        path@,
                    ),
                    group_children_result(*doc, *content, i as nat, path@) == Ok::<
                        (),
                        DocumentErrorView,
                    >(()),
                decreases children.len() - i,
            {
                proof {
                    broadcast use vstd::std_specs::vec::axiom_vec_decreases_to_view;

                    assert(decreases_to!(*content => (*content)->children));
                    assert(decreases_to!(*children => children@));
                    assert(decreases_to!(children@ => children@[i as int]));
                }
                let child_base = join(path, ".children");
                let child_path_str = join_indexed(child_base.as_str(), i as u64, "");
                let r = validate_vector_content(doc, &children[i], child_path_str.as_str());
                if r.is_err() {
                    proof {
                        lemma_children_failure_sticks(
                            *doc,
                            *content,
                            (i + 1) as nat,
                            children@.len(),
                            path@,
                        );
                    }
                    return r;
                }
                i = i + 1;
            }
            Ok(())
        },
    }
}

/// The result of checking a miter limit: finite, then positive.
pub open spec fn miter_result(m: u64, path: Seq<char>) -> Result<(), DocumentErrorView> {
    if !f64_is_finite(m) {
        Err(DocumentErrorView::NonFiniteValue { path })
    } else if f64_le(m, 0) {
        Err(DocumentErrorView::ValueOutOfRange { path })
    } else {
        Ok(())
    }
}

/// The result of checking the parameters of a path operator at `path`,
/// following the table of path operator semantics.
pub open spec fn path_op_result(doc: Document, op: PathOp, path: Seq<char>) -> Result<
    (),
    DocumentErrorView,
> {
    match op {
        PathOp::PuckerBloat { amount } => param_result(
            doc,
            amount,
            signed_unit_slot(),
            path + ".amount"@,
        ),
        PathOp::ZigZag { amount, ridges, point_type: _ } => and_then(
            param_result(doc, amount, non_negative_slot(), path + ".amount"@),
            param_result(doc, ridges, non_negative_slot(), path + ".ridges"@),
        ),
        PathOp::Offset { distance, line_join: _, miter_limit } => and_then(
            param_result(doc, distance, scalar_slot(), path + ".distance"@),
            miter_result(miter_limit.bits, path + ".miter_limit"@),
        ),
        PathOp::RoundCorners { radius } => param_result(
            doc,
            radius,
            non_negative_slot(),
            path + ".radius"@,
        ),
        PathOp::Trim { start, end, offset, mode: _ } => and_then(
            param_result(doc, start, unit_interval_slot(), path + ".start"@),
            and_then(
                param_result(doc, end, unit_interval_slot(), path + ".end"@),
                param_result(doc, offset, scalar_slot(), path + ".offset"@),
            ),
        ),
        PathOp::Twist { angle, center } => and_then(
            param_result(doc, angle, scalar_slot(), path + ".angle"@),
            param_result(doc, center, point_slot(), path + ".center"@),
        ),
        PathOp::Wiggle { amp, freq, seed: _ } => and_then(
            param_result(doc, amp, scalar_slot(), path + ".amp"@),
            param_result(doc, freq, scalar_slot(), path + ".freq"@),
        ),
        PathOp::Repeater { copies, offset, transform, composite: _, start_opacity, end_opacity } =>
            and_then(
            param_result(doc, copies, count_slot(), path + ".copies"@),
            and_then(
                param_result(doc, offset, scalar_slot(), path + ".offset"@),
                and_then(
                    transform_result(doc, transform, path + ".transform"@),
                    and_then(
                        param_result(doc, start_opacity, unit_interval_slot(), path + ".start_opacity"@),
                        param_result(doc, end_opacity, unit_interval_slot(), path + ".end_opacity"@),
                    ),
                ),
            ),
        ),
    }
}

/// Checks the parameters of a path operator against the table of path
/// operator semantics: the refused values become typed errors. Whether an
/// offset path is closed is decided by the geometry, not here.
pub fn validate_path_op_params(doc: &Document, op: &PathOp, path: &str) -> (r: Result<
    (),
    DocumentError,
>)
    ensures
        result_view(r) == path_op_result(*doc, *op, path@),
{
    let scalar = path_op_scalar();
    match op {
        PathOp::PuckerBloat { amount } => validate_param_at(
            doc,
            amount,
            path_op_pucker_bloat_amount(),
            path,
            ".amount",
        ),
        PathOp::ZigZag { amount, ridges, point_type: _ } => {
            let r = validate_param_at(doc, amount, path_op_non_negative(), path, ".amount");
            if r.is_err() {
                return r;
            }
            validate_param_at(doc, ridges, path_op_non_negative(), path, ".ridges")
        },
        PathOp::Offset { distance, line_join: _, miter_limit } => {
            let r = validate_param_at(doc, distance, scalar, path, ".distance");
            if r.is_err() {
                return r;
            }
            if !miter_limit.is_finite() {
                return Err(DocumentError::NonFiniteValue { path: join(path, ".miter_limit") });
            }
            if miter_limit.le(&Float64::zero()) {
                return Err(DocumentError::ValueOutOfRange { path: join(path, ".miter_limit") });
            }
            Ok(())
        },
        PathOp::RoundCorners { radius } => validate_param_at(
            doc,
            radius,
            path_op_non_negative(),
            path,
            ".radius",
        ),
        PathOp::Trim { start, end, offset, mode: _ } => {
            let r = validate_param_at(doc, start, path_op_unit_interval(), path, ".start");
            if r.is_err() {
                return r;
            }
            let r = validate_param_at(doc, end, path_op_unit_interval(), path, ".end");
            if r.is_err() {
                return r;
            }
            validate_param_at(doc, offset, scalar, path, ".offset")
        },
        PathOp::Twist { angle, center } => {
            let r = validate_param_at(doc, angle, scalar, path, ".angle");
            if r.is_err() {
                return r;
            }
            validate_param_at(doc, center, path_op_vec2(), path, ".center")
        },
        PathOp::Wiggle { amp, freq, seed: _ } => {
            let r = validate_param_at(doc, amp, scalar, path, ".amp");
            if r.is_err() {
                return r;
            }
            validate_param_at(doc, freq, scalar, path, ".freq")
        },
        PathOp::Repeater { copies, offset, transform, composite: _, start_opacity, end_opacity } => {
            let r = validate_param_at(doc, copies, path_op_non_negative_integer(), path, ".copies");
            if r.is_err() {
                return r;
            }
            let r = validate_param_at(doc, offset, scalar, path, ".offset");
            if r.is_err() {
                return r;
            }
            let transform_path = join(path, ".transform");
            let r = validate_transform2d(doc, transform, transform_path.as_str());
            if r.is_err() {
                return r;
            }
            let r = validate_param_at(doc, start_opacity, path_op_opacity(), path, ".start_opacity");
            if r.is_err() {
                return r;
            }
            validate_param_at(doc, end_opacity, path_op_opacity(), path, ".end_opacity")
        },
    }
}

/// The offset of a path: any finite constant distance (an inset when
/// negative, an outset when positive) is accepted, so the operator passes
/// exactly when its miter limit is finite and greater than zero; a refusal
/// then names the miter limit.
pub proof fn lemma_offset_distance_any_finite(
    doc: Document,
    d: Float64,
    line_join: crate::schema::LineJoin,
    miter_limit: Float64,
    path: Seq<char>,
)
    requires
        f64_is_finite(d.bits),
    ensures
        path_op_result(
            doc,
            PathOp::Offset {
                distance: DocParam::Const(DocValue::F64(d)),
                line_join,
                miter_limit,
            },
            path,
        ) is Ok <==> f64_is_finite(miter_limit.bits) && crate::float::f64_lt(0, miter_limit.bits),
        path_op_result(
            doc,
            PathOp::Offset {
                distance: DocParam::Const(DocValue::F64(d)),
                line_join,
                miter_limit,
            },
            path,
        ) matches Err(e) ==> (e == DocumentErrorView::NonFiniteValue {
            path: path + ".miter_limit"@,
        } || e == DocumentErrorView::ValueOutOfRange { path: path + ".miter_limit"@ }),
{
    let m = miter_limit.bits;
    assert(number_fault(d.bits, scalar_slot()) is None);
    if f64_is_finite(m) {
        assert(!crate::float::f64_is_nan(m));
        assert(!crate::float::f64_is_nan(0));
    }
}

} // verus!
