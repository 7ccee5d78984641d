//! Parameter values of the document: constant values, keyframe tracks, data
//! drivers, per-axis splits and the spatial links (look-at, follow), together
//! with the named parameter map of plugins and effects.

use crate::float::Float64;
use crate::ids::{AssetId, DataTrackId, LayerId};
use crate::time::RationalTime;
use vstd::prelude::*;

verus! {

/// One value a parameter can hold.
#[derive(Debug, Clone, Copy, PartialEq)]
pub enum DocValue {
    F64(Float64),
    Vec2(Float64, Float64),
    AssetRef(AssetId),
}

/// A key of a keyframe track: the value at time `t`.
#[derive(Debug, Clone, Copy, PartialEq)]
pub struct Keyframe {
    pub t: RationalTime,
    pub value: DocValue,
}

/// The keys of an animated parameter, in time order.
#[derive(Debug, Clone, PartialEq)]
pub struct KeyframeTrack {
    pub keys: Vec<Keyframe>,
}

/// The axis a look-at link turns towards its target.
#[derive(Debug, Clone, Copy, PartialEq, Eq, Structural)]
pub enum LookAtAxis {
    PositiveX,
    PositiveY,
}

/// A document parameter.
#[derive(Debug, PartialEq)]
pub enum DocParam {
    /// A constant value.
    Const(DocValue),
    /// An animated value.
    Keyframes(KeyframeTrack),
    /// A value driven by a data track, with the value used when the track has none.
    Data { track: DataTrackId, fallback: DocValue },
    /// A two-dimensional value whose axes are separate parameters.
    Vec2Axes { x: Box<DocParam>, y: Box<DocParam> },
    /// Turns towards another layer.
    LookAt { target: LayerId, axis: LookAtAxis },
    /// Follows another layer at an offset.
    Follow { target: LayerId, offset: DocValue },
}

/// The value of a parameter, with its keys as a sequence.
pub enum DocParamView {
    Const(DocValue),
    Keyframes(Seq<Keyframe>),
    Data { track: DataTrackId, fallback: DocValue },
    Vec2Axes { x: Box<DocParamView>, y: Box<DocParamView> },
    LookAt { target: LayerId, axis: LookAtAxis },
    Follow { target: LayerId, offset: DocValue },
}

impl View for DocParam {
    type V = DocParamView;

    open spec fn view(&self) -> DocParamView
        decreases self,
    {
        match self {
            DocParam::Const(v) => DocParamView::Const(*v),
            DocParam::Keyframes(track) => DocParamView::Keyframes(track.keys@),
            DocParam::Data { track, fallback } => DocParamView::Data {
                track: *track,
                fallback: *fallback,
            },
            DocParam::Vec2Axes { x, y } => DocParamView::Vec2Axes {
                x: Box::new((**x).view()),
                y: Box::new((**y).view()),
            },
            DocParam::LookAt { target, axis } => DocParamView::LookAt {
                target: *target,
                axis: *axis,
            },
            DocParam::Follow { target, offset } => DocParamView::Follow {
                target: *target,
                offset: *offset,
            },
        }
    }
}

/// `Const(F64(bits))`.
pub open spec fn is_const_f64(p: DocParam, bits: u64) -> bool {
    p matches DocParam::Const(DocValue::F64(v)) && v.bits == bits
}

/// `Const(Vec2(x, y))`.
pub open spec fn is_const_vec2(p: DocParam, x: u64, y: u64) -> bool {
    p matches DocParam::Const(DocValue::Vec2(a, b)) && a.bits == x && b.bits == y
}

impl DocParam {
    /// A constant scalar.
    pub fn const_f64(v: Float64) -> (p: DocParam)
        ensures
            is_const_f64(p, v.bits),
    {
        DocParam::Const(DocValue::F64(v))
    }

    /// A constant two-dimensional value.
    pub fn const_vec2(v: [Float64; 2]) -> (p: DocParam)
        ensures
            is_const_vec2(p, v[0].bits, v[1].bits),
    {
        DocParam::Const(DocValue::Vec2(v[0], v[1]))
    }

    /// A copy of the parameter.
    pub fn duplicate(&self) -> (r: DocParam)
        ensures
            r@ == self@,
        decreases self,
    {
        match self {
            DocParam::Const(v) => DocParam::Const(*v),
            DocParam::Keyframes(track) => {
                let keys = track.keys.clone();
                assert(keys@ =~= track.keys@);
                DocParam::Keyframes(KeyframeTrack { keys })
            },
            DocParam::Data { track, fallback } => DocParam::Data {
                track: *track,
                fallback: *fallback,
            },
            DocParam::Vec2Axes { x, y } => {
                let nx = (**x).duplicate();
                let ny = (**y).duplicate();
                DocParam::Vec2Axes { x: Box::new(nx), y: Box::new(ny) }
            },
            DocParam::LookAt { target, axis } => DocParam::LookAt { target: *target, axis: *axis },
            DocParam::Follow { target, offset } => DocParam::Follow {
                target: *target,
                offset: *offset,
            },
        }
    }
}

impl Clone for DocParam {
    fn clone(&self) -> (r: DocParam)
        ensures
            r@ == self@,
    {
        self.duplicate()
    }
}

impl KeyframeTrack {
    /// The keys, in time order.
    pub fn keys(&self) -> (k: &Vec<Keyframe>)
        ensures
            k@ == self.keys@,
    {
        &self.keys
    }
}

} // verus!
