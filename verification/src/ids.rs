//! Stable identifiers of the document: layers, tracks, assets, effect uses and
//! effect definitions. Each is a raw `u64` behind its own type.

use vstd::prelude::*;

verus! {

/// A layer (clip or group) of the timeline.
#[derive(Debug, Clone, Copy, PartialEq, Eq, Structural, Hash, PartialOrd, Ord)]
pub struct LayerId {
    pub raw: u64,
}

/// A track of the timeline.
#[derive(Debug, Clone, Copy, PartialEq, Eq, Structural, Hash, PartialOrd, Ord)]
pub struct TrackId {
    pub raw: u64,
}

/// A media or font asset of the project.
#[derive(Debug, Clone, Copy, PartialEq, Eq, Structural, Hash, PartialOrd, Ord)]
pub struct AssetId {
    pub raw: u64,
}

/// The identity of one use of an effect on a layer's stack.
#[derive(Debug, Clone, Copy, PartialEq, Eq, Structural, Hash, PartialOrd, Ord)]
pub struct EffectId {
    pub raw: u64,
}

/// A shareable effect recipe.
#[derive(Debug, Clone, Copy, PartialEq, Eq, Structural, Hash, PartialOrd, Ord)]
pub struct EffectDefinitionId {
    pub raw: u64,
}

/// A data track that can drive a parameter.
#[derive(Debug, Clone, Copy, PartialEq, Eq, Structural, Hash, PartialOrd, Ord)]
pub struct DataTrackId {
    pub raw: u64,
}

impl LayerId {
    pub fn from_raw(raw: u64) -> (r: Self)
        ensures
            r.raw == raw,
    {
        LayerId { raw }
    }

    pub fn get(&self) -> (r: u64)
        ensures
            r == self.raw,
    {
        self.raw
    }
}

impl TrackId {
    pub fn from_raw(raw: u64) -> (r: Self)
        ensures
            r.raw == raw,
    {
        TrackId { raw }
    }

    pub fn get(&self) -> (r: u64)
        ensures
            r == self.raw,
    {
        self.raw
    }
}

impl AssetId {
    pub fn from_raw(raw: u64) -> (r: Self)
        ensures
            r.raw == raw,
    {
        AssetId { raw }
    }

    pub fn get(&self) -> (r: u64)
        ensures
            r == self.raw,
    {
        self.raw
    }
}

impl EffectId {
    pub fn from_raw(raw: u64) -> (r: Self)
        ensures
            r.raw == raw,
    {
        EffectId { raw }
    }

    pub fn get(&self) -> (r: u64)
        ensures
            r == self.raw,
    {
        self.raw
    }
}

impl EffectDefinitionId {
    pub fn from_raw(raw: u64) -> (r: Self)
        ensures
            r.raw == raw,
    {
        EffectDefinitionId { raw }
    }

    pub fn get(&self) -> (r: u64)
        ensures
            r == self.raw,
    {
        self.raw
    }
}

impl DataTrackId {
    pub fn from_raw(raw: u64) -> (r: Self)
        ensures
            r.raw == raw,
    {
        DataTrackId { raw }
    }

    pub fn get(&self) -> (r: u64)
        ensures
            r == self.raw,
    {
        self.raw
    }
}

} // verus!
