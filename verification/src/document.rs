//! The document: composition settings, the layer and track registries, the
//! tracks, and the shared effect definitions; and the errors its checks give.

use crate::ids::{AssetId, EffectDefinitionId, LayerId, TrackId};
use crate::schema::{composition_wf, is_default_camera, Composition, EffectDefinition, Track};
use crate::time::{RationalTime, TimeMapError};
use vstd::prelude::*;

verus! {

/// A problem found in a document.
#[derive(Debug, Clone, PartialEq)]
pub enum DocumentError {
    UnknownTrackId { id: u64 },
    UnknownLayerId { id: u64 },
    UnknownAssetId { id: u64 },
    DuplicateLayerId { id: u64 },
    ParentCycle { layer_id: u64 },
    NonPositiveClipDuration { layer_id: u64 },
    ClipIntervalOverflow { layer_id: u64 },
    ClipPastComposition { layer_id: u64, end: RationalTime, comp: RationalTime },
    InvalidTimeMap { layer_id: u64, source: TimeMapError },
    EmptyAssetComponents { layer_id: u64 },
    VideoComponentKindMismatch { layer_id: u64 },
    UnsupportedVideoStreamOrdinal { layer_id: u64, ordinal: u32 },
    AudioComponentKindMismatch { layer_id: u64, index: usize },
    DuplicateAudioStreamOrdinal {
        layer_id: u64,
        ordinal: u32,
        first_index: usize,
        second_index: usize,
    },
    EmptySourcePluginId { layer_id: u64 },
    DanglingEffectDefinition { layer_id: u64, id: u64, definition_id: u64 },
    NonFiniteValue { path: String },
    ValueOutOfRange { path: String },
    /// A parameter whose kind does not fit its slot (a scalar where a point is
    /// expected, a link where none is allowed, ...).
    ParamKindMismatch { path: String },
    /// An asset reference at `path` to an asset whose media type that place
    /// does not accept.
    DisallowedAssetType { id: u64, path: String },
}

/// A `DocumentError` with its texts as sequences and its times as
/// numerator/denominator pairs.
pub enum DocumentErrorView {
    UnknownTrackId { id: u64 },
    UnknownLayerId { id: u64 },
    UnknownAssetId { id: u64 },
    DuplicateLayerId { id: u64 },
    ParentCycle { layer_id: u64 },
    NonPositiveClipDuration { layer_id: u64 },
    ClipIntervalOverflow { layer_id: u64 },
    ClipPastComposition { layer_id: u64, end: (int, int), comp: (int, int) },
    InvalidTimeMap { layer_id: u64, source: TimeMapError },
    EmptyAssetComponents { layer_id: u64 },
    VideoComponentKindMismatch { layer_id: u64 },
    UnsupportedVideoStreamOrdinal { layer_id: u64, ordinal: u32 },
    AudioComponentKindMismatch { layer_id: u64, index: int },
    DuplicateAudioStreamOrdinal { layer_id: u64, ordinal: u32, first_index: int, second_index: int },
    EmptySourcePluginId { layer_id: u64 },
    DanglingEffectDefinition { layer_id: u64, id: u64, definition_id: u64 },
    NonFiniteValue { path: Seq<char> },
    ValueOutOfRange { path: Seq<char> },
    ParamKindMismatch { path: Seq<char> },
    DisallowedAssetType { id: u64, path: Seq<char> },
}

impl View for DocumentError {
    type V = DocumentErrorView;

    open spec fn view(&self) -> DocumentErrorView {
        match self {
            DocumentError::UnknownTrackId { id } => DocumentErrorView::UnknownTrackId { id: *id },
            DocumentError::UnknownLayerId { id } => DocumentErrorView::UnknownLayerId { id: *id },
            DocumentError::UnknownAssetId { id } => DocumentErrorView::UnknownAssetId { id: *id },
            DocumentError::DuplicateLayerId { id } => DocumentErrorView::DuplicateLayerId {
                id: *id,
            },
            DocumentError::ParentCycle { layer_id } => DocumentErrorView::ParentCycle {
                layer_id: *layer_id,
            },
            DocumentError::NonPositiveClipDuration { layer_id } =>
                DocumentErrorView::NonPositiveClipDuration { layer_id: *layer_id },
            DocumentError::ClipIntervalOverflow { layer_id } =>
                DocumentErrorView::ClipIntervalOverflow { layer_id: *layer_id },
            DocumentError::ClipPastComposition { layer_id, end, comp } =>
                DocumentErrorView::ClipPastComposition {
                layer_id: *layer_id,
                end: (end.numer(), end.denom()),
                comp: (comp.numer(), comp.denom()),
            },
            DocumentError::InvalidTimeMap { layer_id, source } =>
                DocumentErrorView::InvalidTimeMap { layer_id: *layer_id, source: *source },
            DocumentError::EmptyAssetComponents { layer_id } =>
                DocumentErrorView::EmptyAssetComponents { layer_id: *layer_id },
            DocumentError::VideoComponentKindMismatch { layer_id } =>
                DocumentErrorView::VideoComponentKindMismatch { layer_id: *layer_id },
            DocumentError::UnsupportedVideoStreamOrdinal { layer_id, ordinal } =>
                DocumentErrorView::UnsupportedVideoStreamOrdinal {
                layer_id: *layer_id,
                ordinal: *ordinal,
            },
            DocumentError::AudioComponentKindMismatch { layer_id, index } =>
                DocumentErrorView::AudioComponentKindMismatch {
                layer_id: *layer_id,
                index: *index as int,
            },
            DocumentError::DuplicateAudioStreamOrdinal {
                layer_id,
                ordinal,
                first_index,
                second_index,
            } => DocumentErrorView::DuplicateAudioStreamOrdinal {
                layer_id: *layer_id,
                ordinal: *ordinal,
                first_index: *first_index as int,
                second_index: *second_index as int,
            },
            DocumentError::EmptySourcePluginId { layer_id } =>
                DocumentErrorView::EmptySourcePluginId { layer_id: *layer_id },
            DocumentError::DanglingEffectDefinition { layer_id, id, definition_id } =>
                DocumentErrorView::DanglingEffectDefinition {
                layer_id: *layer_id,
                id: *id,
                definition_id: *definition_id,
            },
            DocumentError::NonFiniteValue { path } => DocumentErrorView::NonFiniteValue {
                path: path@,
            },
            DocumentError::ValueOutOfRange { path } => DocumentErrorView::ValueOutOfRange {
                path: path@,
            },
            DocumentError::ParamKindMismatch { path } => DocumentErrorView::ParamKindMismatch {
                path: path@,
            },
            DocumentError::DisallowedAssetType { id, path } =>
                DocumentErrorView::DisallowedAssetType { id: *id, path: path@ },
        }
    }
}

/// The view of a check's result.
pub open spec fn result_view(r: Result<(), DocumentError>) -> Result<(), DocumentErrorView> {
    match r {
        Ok(()) => Ok(()),
        Err(e) => Err(e@),
    }
}

/// The first failure of two checks run in order.
pub open spec fn and_then(
    a: Result<(), DocumentErrorView>,
    b: Result<(), DocumentErrorView>,
) -> Result<(), DocumentErrorView> {
    if a is Err {
        a
    } else {
        b
    }
}

/// A registered name of a layer or track.
#[derive(Debug, Clone)]
pub struct RegistryEntry {
    pub id: u64,
    pub name: String,
}

/// A registry that hands out fresh identifiers, each with a display name.
/// Every identifier it holds is below `next`, so a new one is never a repeat.
#[derive(Debug)]
pub struct Registry {
    entries: Vec<RegistryEntry>,
    next: u64,
}

impl Registry {
    #[verifier::type_invariant]
    spec fn ids_below_next(self) -> bool {
        &&& forall|i: int|
            0 <= i < self.entries@.len() ==> #[trigger] self.entries@[i].id < self.next
        &&& forall|i: int, j: int|
            0 <= i < j < self.entries@.len() ==> #[trigger] self.entries@[i].id
                < #[trigger] self.entries@[j].id
    }

    /// Identifiers handed out in increasing order are distinct.
    proof fn lemma_ids_distinct(r: Registry)
        requires
            r.ids_below_next(),
        ensures
            r.ids().no_duplicates(),
    {
        assert forall|i: int, j: int|
            0 <= i < r.ids().len() && 0 <= j < r.ids().len() && i != j implies r.ids()[i]
            != r.ids()[j] by {
            if i < j {
                assert(r.entries@[i].id < r.entries@[j].id);
            } else {
                assert(r.entries@[j].id < r.entries@[i].id);
            }
        }
    }

    /// The identifier the registry hands out next; every one it holds is
    /// below it.
    pub closed spec fn next_spec(self) -> u64 {
        self.next
    }

    /// The identifiers handed out, in order.
    pub closed spec fn ids(self) -> Seq<u64> {
        self.entries@.map_values(|e: RegistryEntry| e.id)
    }

    /// The names given with them, in the same order.
    pub closed spec fn names(self) -> Seq<Seq<char>> {
        self.entries@.map_values(|e: RegistryEntry| e.name@)
    }

    /// An empty registry.
    pub fn new() -> (r: Registry)
        ensures
            r.ids().len() == 0,
            r.names().len() == 0,
            r.next_spec() == 0,
    {
        Registry { entries: Vec::new(), next: 0 }
    }

    /// Whether `id` was handed out.
    pub fn contains_raw(&self, id: u64) -> (b: bool)
        ensures
            b == self.ids().contains(id),
            self.ids().no_duplicates(),
    {
        proof {
            use_type_invariant(self);
            Registry::lemma_ids_distinct(*self);
        }
        let mut i: usize = 0;
        while i < self.entries.len()
            invariant
                i <= self.entries@.len(),
                self.ids().no_duplicates(),
                forall|j: int| 0 <= j < i ==> self.entries@[j].id != id,
            decreases self.entries.len() - i,
        {
            if self.entries[i].id == id {
                assert(self.ids()[i as int] == id);
                return true;
            }
            i = i + 1;
        }
        proof {
            if self.ids().contains(id) {
                let k = choose|k: int| 0 <= k < self.ids().len() && self.ids()[k] == id;
                assert(self.entries@[k].id == id);
            }
        }
        false
    }

    /// Hands out a fresh identifier named `name`; `None` once the identifiers
    /// are used up.
    pub fn allocate_raw(&mut self, name: &str) -> (r: Option<u64>)
        ensures
            r is Some <==> old(self).next_spec() < u64::MAX,
            r matches Some(id) ==> id == old(self).next_spec() && final(self).next_spec() == id + 1,
            r is None ==> final(self).next_spec() == old(self).next_spec(),
            match r {
                Some(id) => {
                    &&& !old(self).ids().contains(id)
                    &&& final(self).ids() == old(self).ids().push(id)
                    &&& final(self).names() == old(self).names().push(name@)
                    &&& final(self).ids().no_duplicates()
                },
                None => {
                    &&& final(self).ids() == old(self).ids()
                    &&& final(self).names() == old(self).names()
                },
            },
    {
        proof {
            use_type_invariant(&*self);
        }
        if self.next == u64::MAX {
            return None;
        }
        let id = self.next;
        let ghost before = self.entries@;
        proof {
            if self.ids().contains(id) {
                let k = choose|k: int| 0 <= k < self.ids().len() && self.ids()[k] == id;
                assert(before[k].id == id);
            }
        }
        let mut entries: Vec<RegistryEntry> = Vec::new();
        std::mem::swap(&mut entries, &mut self.entries);
        entries.push(RegistryEntry { id, name: String::from_str(name) });
        self.next = id + 1;
        proof {
            assert forall|i: int| 0 <= i < entries@.len() implies #[trigger] entries@[i].id < id
                + 1 by {
                if i < before.len() {
                    assert(entries@[i] == before[i]);
                }
            }
        }
        self.entries = entries;
        proof {
            assert(self.ids() =~= old(self).ids().push(id));
            assert(self.names() =~= old(self).names().push(name@));
            use_type_invariant(&*self);
            Registry::lemma_ids_distinct(*self);
        }
        Some(id)
    }
}

impl Clone for Registry {
    fn clone(&self) -> (r: Registry)
        ensures
            r.ids() == self.ids(),
            r.names() == self.names(),
    {
        proof {
            use_type_invariant(self);
        }
        let mut entries: Vec<RegistryEntry> = Vec::new();
        let mut i: usize = 0;
        while i < self.entries.len()
            invariant
                i <= self.entries@.len(),
                entries@.len() == i,
                forall|j: int|
                    0 <= j < i ==> (#[trigger] entries@[j]).id == self.entries@[j].id
                        && entries@[j].name@ == self.entries@[j].name@,
                forall|j: int|
                    0 <= j < self.entries@.len() ==> #[trigger] self.entries@[j].id < self.next,
            decreases self.entries.len() - i,
        {
            entries.push(RegistryEntry { id: self.entries[i].id, name: self.entries[i].name.clone() });
            i = i + 1;
        }
        let r = Registry { entries, next: self.next };
        assert(r.ids() =~= self.ids());
        assert(r.names() =~= self.names());
        r
    }
}

/// The layers of a document.
#[derive(Debug, Clone)]
pub struct LayerRegistry {
    pub registry: Registry,
}

/// The tracks of a document.
#[derive(Debug, Clone)]
pub struct TrackRegistry {
    pub registry: Registry,
}

impl LayerRegistry {
    pub fn new() -> (r: LayerRegistry)
        ensures
            r.registry.ids().len() == 0,
            r.registry.names().len() == 0,
            r.registry.next_spec() == 0,
    {
        LayerRegistry { registry: Registry::new() }
    }

    pub fn contains(&self, id: LayerId) -> (b: bool)
        ensures
            b == self.registry.ids().contains(id.raw),
            self.registry.ids().no_duplicates(),
    {
        self.registry.contains_raw(id.raw)
    }

    /// A fresh layer named `name`.
    pub fn allocate(&mut self, name: &str) -> (r: Option<LayerId>)
        ensures
            r is Some <==> old(self).registry.next_spec() < u64::MAX,
            r matches Some(id) ==> id.raw == old(self).registry.next_spec()
                && final(self).registry.next_spec() == id.raw + 1,
            r is None ==> final(self).registry.next_spec() == old(self).registry.next_spec(),
            match r {
                Some(id) => {
                    &&& !old(self).registry.ids().contains(id.raw)
                    &&& final(self).registry.ids() == old(self).registry.ids().push(id.raw)
                    &&& final(self).registry.names() == old(self).registry.names().push(name@)
                    &&& final(self).registry.ids().no_duplicates()
                },
                None => {
                    &&& final(self).registry.ids() == old(self).registry.ids()
                    &&& final(self).registry.names() == old(self).registry.names()
                },
            },
    {
        match self.registry.allocate_raw(name) {
            Some(raw) => Some(LayerId { raw }),
            None => None,
        }
    }
}

impl TrackRegistry {
    pub fn new() -> (r: TrackRegistry)
        ensures
            r.registry.ids().len() == 0,
            r.registry.names().len() == 0,
            r.registry.next_spec() == 0,
    {
        TrackRegistry { registry: Registry::new() }
    }

    pub fn contains(&self, id: TrackId) -> (b: bool)
        ensures
            b == self.registry.ids().contains(id.raw),
            self.registry.ids().no_duplicates(),
    {
        self.registry.contains_raw(id.raw)
    }

    /// A fresh track named `name`.
    pub fn allocate(&mut self, name: &str) -> (r: Option<TrackId>)
        ensures
            r is Some <==> old(self).registry.next_spec() < u64::MAX,
            r matches Some(id) ==> id.raw == old(self).registry.next_spec()
                && final(self).registry.next_spec() == id.raw + 1,
            r is None ==> final(self).registry.next_spec() == old(self).registry.next_spec(),
            match r {
                Some(id) => {
                    &&& !old(self).registry.ids().contains(id.raw)
                    &&& final(self).registry.ids() == old(self).registry.ids().push(id.raw)
                    &&& final(self).registry.names() == old(self).registry.names().push(name@)
                    &&& final(self).registry.ids().no_duplicates()
                },
                None => {
                    &&& final(self).registry.ids() == old(self).registry.ids()
                    &&& final(self).registry.names() == old(self).registry.names()
                },
            },
    {
        match self.registry.allocate_raw(name) {
            Some(raw) => Some(TrackId { raw }),
            None => None,
        }
    }
}

/// Hands out the stable identities of effect uses and definitions: each
/// identity once, in increasing order.
#[derive(Debug, Clone)]
pub struct StableIdAllocator {
    next: u64,
}

impl StableIdAllocator {
    /// The identity handed out next, if any is left.
    pub closed spec fn next_spec(self) -> u64 {
        self.next
    }

    /// An allocator that starts at zero.
    pub fn new() -> (a: StableIdAllocator)
        ensures
            a.next_spec() == 0,
    {
        StableIdAllocator { next: 0 }
    }

    /// A fresh identity, larger than every one handed out before; `None` once
    /// the identities are used up.
    pub fn allocate(&mut self) -> (r: Option<u64>)
        ensures
            old(self).next_spec() < u64::MAX ==> r == Some(old(self).next_spec())
                && final(self).next_spec() == old(self).next_spec() + 1,
            old(self).next_spec() == u64::MAX ==> r is None
                && final(self).next_spec() == old(self).next_spec(),
    {
        if self.next == u64::MAX {
            return None;
        }
        let id = self.next;
        self.next = id + 1;
        Some(id)
    }
}

/// An asset of the document, with its media type.
#[derive(Debug, Clone)]
pub struct AssetEntry {
    pub id: AssetId,
    pub media_type: String,
}

/// A document.
#[derive(Debug, Clone)]
pub struct Document {
    pub composition: Composition,
    pub layers: LayerRegistry,
    pub track_ids: TrackRegistry,
    pub tracks: Vec<Track>,
    pub effect_definitions: Vec<EffectDefinition>,
    pub assets: Vec<AssetEntry>,
    pub next_stable_id: StableIdAllocator,
}

/// The index of the first asset with identity `id` at or after `i`.
pub open spec fn first_asset(assets: Seq<AssetEntry>, id: AssetId, i: int) -> Option<int>
    decreases assets.len() - i,
{
    if i >= assets.len() || i < 0 {
        None
    } else if assets[i].id == id {
        Some(i)
    } else {
        first_asset(assets, id, i + 1)
    }
}

/// The layer `id` is registered in the document.
pub open spec fn knows_layer(doc: Document, id: u64) -> bool {
    doc.layers.registry.ids().contains(id)
}

/// The track `id` is registered in the document.
pub open spec fn knows_track(doc: Document, id: u64) -> bool {
    doc.track_ids.registry.ids().contains(id)
}

/// The document has an effect definition with identity `id`.
pub open spec fn knows_definition(doc: Document, id: EffectDefinitionId) -> bool {
    exists|i: int| 0 <= i < doc.effect_definitions@.len() && #[trigger] doc.effect_definitions@[i].id == id
}

impl Document {
    /// An empty document with the first version's composition.
    pub fn new_current() -> (d: Document)
        ensures
            d.layers.registry.ids().len() == 0,
            d.track_ids.registry.ids().len() == 0,
            d.tracks@.len() == 0,
            d.effect_definitions@.len() == 0,
            d.assets@.len() == 0,
            d.next_stable_id.next_spec() == 0,
            d.layers.registry.names().len() == 0,
            d.track_ids.registry.names().len() == 0,
            d.layers.registry.next_spec() == 0,
            d.track_ids.registry.next_spec() == 0,
            d.composition.aspect_num_spec() == 16,
            d.composition.aspect_den_spec() == 9,
            d.composition.duration_spec().numer() == 10,
            d.composition.duration_spec().denom() == 1,
            d.composition.fps_spec().numer() == 30,
            d.composition.fps_spec().denom() == 1,
            is_default_camera(d.composition.camera_spec()),
            d.composition.resolution_spec() is None,
            composition_wf(d.composition),
    {
        Document {
            composition: Composition::new_v1(),
            layers: LayerRegistry::new(),
            track_ids: TrackRegistry::new(),
            tracks: Vec::new(),
            effect_definitions: Vec::new(),
            assets: Vec::new(),
            next_stable_id: StableIdAllocator::new(),
        }
    }

    /// The first asset with identity `id`.
    pub fn asset(&self, id: AssetId) -> (r: Option<&AssetEntry>)
        ensures
            match first_asset(self.assets@, id, 0) {
                Some(i) => r == Some(&self.assets@[i]),
                None => r is None,
            },
    {
        let mut i: usize = 0;
        while i < self.assets.len()
            invariant
                i <= self.assets@.len(),
                first_asset(self.assets@, id, 0) == first_asset(self.assets@, id, i as int),
            decreases self.assets.len() - i,
        {
            if self.assets[i].id == id {
                return Some(&self.assets[i]);
            }
            i = i + 1;
        }
        None
    }

    /// The first effect definition with identity `id`.
    pub fn effect_definition(&self, id: EffectDefinitionId) -> (r: Option<&EffectDefinition>)
        ensures
            r is Some <==> knows_definition(*self, id),
            r matches Some(d) ==> d.id == id,
    {
        let mut i: usize = 0;
        while i < self.effect_definitions.len()
            invariant
                i <= self.effect_definitions@.len(),
                forall|j: int| 0 <= j < i ==> self.effect_definitions@[j].id != id,
            decreases self.effect_definitions.len() - i,
        {
            if self.effect_definitions[i].id == id {
                return Some(&self.effect_definitions[i]);
            }
            i = i + 1;
        }
        None
    }

    /// `Ok` when the track is registered.
    pub fn require_track(&self, id: TrackId) -> (r: Result<(), DocumentError>)
        ensures
            result_view(r) == if knows_track(*self, id.raw) {
                Ok(())
            } else {
                Err(DocumentErrorView::UnknownTrackId { id: id.raw })
            },
    {
        if self.track_ids.contains(id) {
            Ok(())
        } else {
            Err(DocumentError::UnknownTrackId { id: id.get() })
        }
    }

    /// `Ok` when the layer is registered.
    pub fn require_layer(&self, id: LayerId) -> (r: Result<(), DocumentError>)
        ensures
            result_view(r) == if knows_layer(*self, id.raw) {
                Ok(())
            } else {
                Err(DocumentErrorView::UnknownLayerId { id: id.raw })
            },
    {
        if self.layers.contains(id) {
            Ok(())
        } else {
            Err(DocumentError::UnknownLayerId { id: id.get() })
        }
    }
}

} // verus!
