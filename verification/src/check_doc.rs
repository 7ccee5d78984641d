//! The structural check of a whole document: every track is registered, every
//! item of every track passes its checks (layers seen once, across the whole
//! document), no layer is its own ancestor, and the composition camera is
//! well formed.

use crate::check_items::{item_step, validate_item, CheckState, StepResult};
use crate::check_param::{camera_result, validate_comp_camera_doc};
use crate::cycles::{detect_parent_cycles, has_parent_cycle, on_parent_cycle};
use crate::document::{knows_track, result_view, Document, DocumentError, DocumentErrorView};
use crate::laws::{all_registered, lemma_passing_document_parents_registered, tracks_parents};
use crate::schema::{Track, TrackItem};
use std::collections::{HashMap, HashSet};
use vstd::prelude::*;

verus! {

broadcast use vstd::std_specs::hash::group_hash_axioms;

/// Checking the first `n` items of a track in order, stopping at the first
/// failure.
pub open spec fn items_step(doc: Document, items: Seq<TrackItem>, n: nat, st: CheckState) -> StepResult
    decreases n,
{
    if n == 0 {
        (Ok(()), st)
    } else {
        let (r, st1) = items_step(doc, items, (n - 1) as nat, st);
        if r is Err {
            (r, st1)
        } else {
            item_step(doc, items[n - 1], st1)
        }
    }
}

/// Checking the first `n` tracks in order: each must be registered, then its
/// items are checked.
pub open spec fn tracks_step(doc: Document, tracks: Seq<Track>, n: nat, st: CheckState) -> StepResult
    decreases n,
{
    if n == 0 {
        (Ok(()), st)
    } else {
        let (r, st1) = tracks_step(doc, tracks, (n - 1) as nat, st);
        if r is Err {
            (r, st1)
        } else if !knows_track(doc, tracks[n - 1].id.raw) {
            (Err(DocumentErrorView::UnknownTrackId { id: tracks[n - 1].id.raw }), st1)
        } else {
            items_step(doc, tracks[n - 1].items@, tracks[n - 1].items@.len(), st1)
        }
    }
}

/// The walk over all tracks of the document, from an empty state.
pub open spec fn document_walk(doc: Document) -> StepResult {
    tracks_step(doc, doc.tracks@, doc.tracks@.len(), (Set::empty(), Map::empty()))
}

proof fn lemma_items_failure_sticks(doc: Document, items: Seq<TrackItem>, n: nat, m: nat, st: CheckState)
    requires
        n <= m,
        items_step(doc, items, n, st).0 is Err,
    ensures
        items_step(doc, items, m, st) == items_step(doc, items, n, st),
    decreases m,
{
    if m > n {
        lemma_items_failure_sticks(doc, items, n, (m - 1) as nat, st);
    }
}

proof fn lemma_tracks_failure_sticks(doc: Document, tracks: Seq<Track>, n: nat, m: nat, st: CheckState)
    requires
        n <= m,
        tracks_step(doc, tracks, n, st).0 is Err,
    ensures
        tracks_step(doc, tracks, m, st) == tracks_step(doc, tracks, n, st),
    decreases m,
{
    if m > n {
        lemma_tracks_failure_sticks(doc, tracks, n, (m - 1) as nat, st);
    }
}

/// Checks the items of a track in order.
fn validate_track_items(
    doc: &Document,
    items: &Vec<TrackItem>,
    seen_layers: &mut HashSet<u64>,
    parents: &mut HashMap<u64, u64>,
) -> (r: Result<(), DocumentError>)
    ensures
        (result_view(r), (final(seen_layers)@, final(parents)@)) == items_step(
            *doc,
            items@,
            items@.len(),
            (old(seen_layers)@, old(parents)@),
        ),
{
    let ghost before: CheckState = (seen_layers@, parents@);
    let mut i: usize = 0;
    while i < items.len()
        invariant
            i <= items@.len(),
            before == (old(seen_layers)@, old(parents)@),
            items_step(*doc, items@, i as nat, before) == (
                Ok::<(), DocumentErrorView>(()),
                (seen_layers@, parents@),
            ),
        decreases items.len() - i,
    {
        let r = validate_item(doc, &items[i], seen_layers, parents);
        if r.is_err() {
            proof {
                lemma_items_failure_sticks(*doc, items@, (i + 1) as nat, items@.len(), before);
            }
            return r;
        }
        i = i + 1;
    }
    Ok(())
}

impl Document {
    /// The structural checks of the document: tracks registered, items valid
    /// (each layer once in the whole document), parent links without cycles,
    /// and the composition camera. The first failure is given back.
    pub fn validate_structure(&self) -> (r: Result<(), DocumentError>)
        ensures
            document_walk(*self).0 is Err ==> result_view(r) == document_walk(*self).0,
            document_walk(*self).0 is Ok && has_parent_cycle(document_walk(*self).1.1) ==> (r matches Err(
                DocumentError::ParentCycle { layer_id },
            ) && on_parent_cycle(document_walk(*self).1.1, layer_id)),
            document_walk(*self).0 is Ok && !has_parent_cycle(document_walk(*self).1.1)
                ==> result_view(r) == camera_result(
                *self,
                self.composition.camera_spec(),
                "composition.camera"@,
            ),
            r is Ok ==> all_registered(*self, tracks_parents(self.tracks@, self.tracks@.len())),
    {
        let mut seen_layers: HashSet<u64> = HashSet::new();
        let mut parents: HashMap<u64, u64> = HashMap::new();
        let ghost start: CheckState = (seen_layers@, parents@);
        assert(start == (Set::<u64>::empty(), Map::<u64, u64>::empty()));
        let mut t: usize = 0;
        while t < self.tracks.len()
            invariant
                t <= self.tracks@.len(),
                start == (Set::<u64>::empty(), Map::<u64, u64>::empty()),
                tracks_step(*self, self.tracks@, t as nat, start) == (
                    Ok::<(), DocumentErrorView>(()),
                    (seen_layers@, parents@),
                ),
            decreases self.tracks.len() - t,
        {
            let track = &self.tracks[t];
            let r = self.require_track(track.id);
            if r.is_err() {
                proof {
                    lemma_tracks_failure_sticks(
                        *self,
                        self.tracks@,
                        (t + 1) as nat,
                        self.tracks@.len(),
                        start,
                    );
                }
                return r;
            }
            let r = validate_track_items(self, &track.items, &mut seen_layers, &mut parents);
            if r.is_err() {
                proof {
                    assert(tracks_step(*self, self.tracks@, (t + 1) as nat, start).0 is Err);
                    lemma_tracks_failure_sticks(
                        *self,
                        self.tracks@,
                        (t + 1) as nat,
                        self.tracks@.len(),
                        start,
                    );
                }
                return r;
            }
            t = t + 1;
        }
        proof {
            lemma_passing_document_parents_registered(*self);
        }
        let r = detect_parent_cycles(&parents);
        if r.is_err() {
            return r;
        }
        validate_comp_camera_doc(self, self.composition.camera(), "composition.camera")
    }
}

} // verus!
