//! Properties that span the checks: a document that passes records every
//! layer exactly once and names only registered parents; audio gains have no
//! upper limit; a keyframed parameter lists every asset its keys name.

use crate::asset_uses::{keys_uses, param_uses, use_at, AllowedAssetTypes};
use crate::check_doc::{items_step, tracks_step, document_walk};
use crate::check_items::{
    audio_component_result, audio_result, children_step, clip_step, envelope_step,
    first_with_ordinal, group_step, item_step, CheckState,
};
use crate::document::{knows_layer, Document, DocumentErrorView};
use crate::float::Float64;
use crate::param::{DocParam, DocValue, Keyframe, KeyframeTrack};
use crate::schema::{AudioComponent, Group, ItemEnvelope, StreamKind, Track, TrackItem};
use vstd::prelude::*;

verus! {

/// The layers of a track item in the order the walk meets them: the item's
/// own layer, then (for a group) those of its children.
pub open spec fn item_layer_ids(item: TrackItem) -> Seq<u64>
    decreases item, 0nat,
{
    match item {
        TrackItem::Clip(clip) => seq![clip.envelope.layer_id.raw],
        TrackItem::Group(g) => seq![g.envelope.layer_id.raw] + children_layer_ids(
            g,
            g.children@.len(),
        ),
    }
}

/// The layers of the first `n` children of a group, in walk order.
pub open spec fn children_layer_ids(g: Group, n: nat) -> Seq<u64>
    decreases g, n,
{
    if n == 0 || n > g.children@.len() {
        seq![]
    } else {
        children_layer_ids(g, (n - 1) as nat) + item_layer_ids(g.children@[n - 1])
    }
}

/// The layers of the first `n` items of a list, in walk order.
pub open spec fn items_layer_ids(items: Seq<TrackItem>, n: nat) -> Seq<u64>
    decreases n,
{
    if n == 0 {
        seq![]
    } else {
        items_layer_ids(items, (n - 1) as nat) + item_layer_ids(items[n - 1])
    }
}

/// The layers of the first `n` tracks, in walk order.
pub open spec fn tracks_layer_ids(tracks: Seq<Track>, n: nat) -> Seq<u64>
    decreases n,
{
    if n == 0 {
        seq![]
    } else {
        tracks_layer_ids(tracks, (n - 1) as nat) + items_layer_ids(
            tracks[n - 1].items@,
            tracks[n - 1].items@.len(),
        )
    }
}

/// A passing walk over `ids` from `before` to `after`: the layers are
/// distinct, none was seen before, and afterwards exactly they have been
/// added to those seen.
pub open spec fn records_fresh_layers(ids: Seq<u64>, before: Set<u64>, after: Set<u64>) -> bool {
    &&& ids.no_duplicates()
    &&& forall|i: int| 0 <= i < ids.len() ==> !before.contains(#[trigger] ids[i])
    &&& after == before + ids.to_set()
}

/// Chaining two passing walks.
proof fn lemma_records_concat(a: Seq<u64>, b: Seq<u64>, s0: Set<u64>, s1: Set<u64>, s2: Set<u64>)
    requires
        records_fresh_layers(a, s0, s1),
        records_fresh_layers(b, s1, s2),
    ensures
        records_fresh_layers(a + b, s0, s2),
{
    let ab = a + b;
    assert forall|i: int, j: int| 0 <= i < ab.len() && 0 <= j < ab.len() && i != j implies ab[i]
        != ab[j] by {
        if i < a.len() && j >= a.len() {
            assert(s1.contains(a[i])) by {
                assert(a.to_set().contains(a[i]));
            }
            assert(!s1.contains(b[j - a.len()]));
        } else if j < a.len() && i >= a.len() {
            assert(s1.contains(a[j])) by {
                assert(a.to_set().contains(a[j]));
            }
            assert(!s1.contains(b[i - a.len()]));
        } else if i >= a.len() && j >= a.len() {
            assert(b[i - a.len()] != b[j - a.len()]);
        }
    }
    assert forall|i: int| 0 <= i < ab.len() implies !s0.contains(#[trigger] ab[i]) by {
        if i >= a.len() {
            assert(!s1.contains(b[i - a.len()]));
        }
    }
    assert(s2 =~= s0 + ab.to_set()) by {
        assert forall|x: u64| s2.contains(x) <==> (s0 + ab.to_set()).contains(x) by {
            if ab.to_set().contains(x) {
                let k = choose|k: int| 0 <= k < ab.len() && ab[k] == x;
                if k < a.len() {
                    assert(a.to_set().contains(a[k]));
                } else {
                    assert(b.to_set().contains(b[k - a.len()]));
                }
            }
            if a.to_set().contains(x) {
                let k = choose|k: int| 0 <= k < a.len() && a[k] == x;
                assert(ab[k] == x);
            }
            if b.to_set().contains(x) {
                let k = choose|k: int| 0 <= k < b.len() && b[k] == x;
                assert(ab[k + a.len()] == x);
            }
        }
    }
}

/// A passing envelope records exactly its own layer, which was not seen.
proof fn lemma_envelope_records(doc: Document, env: crate::schema::ItemEnvelope, st: CheckState)
    requires
        envelope_step(doc, env, st).0 is Ok,
    ensures
        records_fresh_layers(seq![env.layer_id.raw], st.0, envelope_step(doc, env, st).1.0),
{
    let id = env.layer_id.raw;
    assert(seq![id].to_set() =~= set![id]) by {
        assert forall|x: u64| seq![id].to_set().contains(x) <==> set![id].contains(x) by {
            if x == id {
                assert(seq![id][0] == id);
            }
        }
    }
    assert(st.0.insert(id) =~= st.0 + set![id]);
}

/// A passing item records each of its layers once, none seen before.
pub proof fn lemma_item_records_layers(doc: Document, item: TrackItem, st: CheckState)
    requires
        item_step(doc, item, st).0 is Ok,
    ensures
        records_fresh_layers(item_layer_ids(item), st.0, item_step(doc, item, st).1.0),
    decreases item, 0nat,
{
    match item {
        TrackItem::Clip(clip) => {
            lemma_envelope_records(doc, clip.envelope, st);
        },
        TrackItem::Group(g) => {
            let st1 = envelope_step(doc, g.envelope, st).1;
            lemma_envelope_records(doc, g.envelope, st);
            lemma_children_records_layers(doc, g, g.children@.len(), st1);
            lemma_records_concat(
                seq![g.envelope.layer_id.raw],
                children_layer_ids(g, g.children@.len()),
                st.0,
                st1.0,
                item_step(doc, item, st).1.0,
            );
        },
    }
}

/// Passing children record each of their layers once, none seen before.
pub proof fn lemma_children_records_layers(doc: Document, g: Group, n: nat, st: CheckState)
    requires
        children_step(doc, g, n, st).0 is Ok,
    ensures
        records_fresh_layers(children_layer_ids(g, n), st.0, children_step(doc, g, n, st).1.0),
    decreases g, n,
{
    if n == 0 || n > g.children@.len() {
        assert(st.0 + Seq::<u64>::empty().to_set() =~= st.0);
    } else {
        let st1 = children_step(doc, g, (n - 1) as nat, st).1;
        lemma_children_records_layers(doc, g, (n - 1) as nat, st);
        lemma_item_records_layers(doc, g.children@[n - 1], st1);
        lemma_records_concat(
            children_layer_ids(g, (n - 1) as nat),
            item_layer_ids(g.children@[n - 1]),
            st.0,
            st1.0,
            children_step(doc, g, n, st).1.0,
        );
    }
}

/// Passing items record each of their layers once, none seen before.
pub proof fn lemma_items_records_layers(doc: Document, items: Seq<TrackItem>, n: nat, st: CheckState)
    requires
        items_step(doc, items, n, st).0 is Ok,
    ensures
        records_fresh_layers(items_layer_ids(items, n), st.0, items_step(doc, items, n, st).1.0),
    decreases n,
{
    if n == 0 {
        assert(st.0 + Seq::<u64>::empty().to_set() =~= st.0);
    } else {
        let st1 = items_step(doc, items, (n - 1) as nat, st).1;
        lemma_items_records_layers(doc, items, (n - 1) as nat, st);
        lemma_item_records_layers(doc, items[n - 1], st1);
        lemma_records_concat(
            items_layer_ids(items, (n - 1) as nat),
            item_layer_ids(items[n - 1]),
            st.0,
            st1.0,
            items_step(doc, items, n, st).1.0,
        );
    }
}

/// Passing tracks record each of their layers once, none seen before.
pub proof fn lemma_tracks_records_layers(doc: Document, tracks: Seq<Track>, n: nat, st: CheckState)
    requires
        tracks_step(doc, tracks, n, st).0 is Ok,
    ensures
        records_fresh_layers(tracks_layer_ids(tracks, n), st.0, tracks_step(doc, tracks, n, st).1.0),
    decreases n,
{
    if n == 0 {
        assert(st.0 + Seq::<u64>::empty().to_set() =~= st.0);
    } else {
        let st1 = tracks_step(doc, tracks, (n - 1) as nat, st).1;
        lemma_tracks_records_layers(doc, tracks, (n - 1) as nat, st);
        lemma_items_records_layers(doc, tracks[n - 1].items@, tracks[n - 1].items@.len(), st1);
        lemma_records_concat(
            tracks_layer_ids(tracks, (n - 1) as nat),
            items_layer_ids(tracks[n - 1].items@, tracks[n - 1].items@.len()),
            st.0,
            st1.0,
            tracks_step(doc, tracks, n, st).1.0,
        );
    }
}

/// In a document whose track walk passes, no layer appears twice anywhere in
/// its tracks, groups included, and the walk has seen exactly its layers.
pub proof fn lemma_passing_document_has_unique_layers(doc: Document)
    requires
        document_walk(doc).0 is Ok,
    ensures
        tracks_layer_ids(doc.tracks@, doc.tracks@.len()).no_duplicates(),
        document_walk(doc).1.0 == tracks_layer_ids(doc.tracks@, doc.tracks@.len()).to_set(),
{
    lemma_tracks_records_layers(doc, doc.tracks@, doc.tracks@.len(), (Set::empty(), Map::empty()));
    assert(Set::<u64>::empty() + tracks_layer_ids(doc.tracks@, doc.tracks@.len()).to_set()
        =~= tracks_layer_ids(doc.tracks@, doc.tracks@.len()).to_set());
}

/// The gain is a constant number that is finite and at least zero (of any
/// size: gains are linear and have no upper limit).
pub open spec fn finite_non_negative_gain(gain: DocParam) -> bool {
    gain matches DocParam::Const(crate::param::DocValue::F64(v)) && crate::float::f64_is_finite(
        v.bits,
    ) && crate::float::f64_le(0, v.bits)
}

/// No component in `[j, k)` uses the ordinal: none is found.
proof fn lemma_no_earlier_ordinal(audio: Seq<AudioComponent>, ordinal: u32, j: int, k: int)
    requires
        0 <= j,
        k <= audio.len(),
        forall|i: int| j <= i < k ==> (#[trigger] audio[i]).stream.ordinal != ordinal,
    ensures
        first_with_ordinal(audio, ordinal, j, k) is None,
    decreases k - j,
{
    if j < k {
        lemma_no_earlier_ordinal(audio, ordinal, j + 1, k);
    }
}

/// An audio component on an audio stream whose ordinal no earlier component
/// uses is refused for its constant gain exactly when that gain is negative
/// or not finite; a finite gain of at least zero, however large, passes.
pub proof fn lemma_audio_gain_bounds(
    doc: Document,
    audio: Seq<AudioComponent>,
    index: int,
    layer_id: u64,
    v: Float64,
)
    requires
        0 <= index < audio.len(),
        audio[index].stream.kind == StreamKind::Audio,
        forall|i: int| 0 <= i < index ==> (#[trigger] audio[i]).stream.ordinal
            != audio[index].stream.ordinal,
        audio[index].gain == DocParam::Const(crate::param::DocValue::F64(v)),
    ensures
        audio_component_result(doc, audio, index, layer_id) is Ok <==> (
        crate::float::f64_is_finite(v.bits) && crate::float::f64_le(0, v.bits)),
{
    lemma_no_earlier_ordinal(audio, audio[index].stream.ordinal, 0, index);
}

/// An asset source's audio list passes when every component is on an audio
/// stream, no two use the same ordinal, and every gain is a finite constant of
/// at least zero.
pub proof fn lemma_audio_list_passes(
    doc: Document,
    audio: Seq<AudioComponent>,
    n: nat,
    layer_id: u64,
)
    requires
        n <= audio.len(),
        forall|i: int| 0 <= i < n ==> (#[trigger] audio[i]).stream.kind == StreamKind::Audio,
        forall|i: int, j: int|
            0 <= i < j < n ==> (#[trigger] audio[i]).stream.ordinal != (#[trigger] audio[j]).stream.ordinal,
        forall|i: int| 0 <= i < n ==> finite_non_negative_gain(#[trigger] audio[i].gain),
    ensures
        audio_result(doc, audio, n, layer_id) is Ok,
    decreases n,
{
    if n > 0 {
        let k = n - 1;
        lemma_audio_list_passes(doc, audio, (n - 1) as nat, layer_id);
        assert(finite_non_negative_gain(audio[k].gain));
        let v = audio[k].gain->Const_0->F64_0;
        assert forall|i: int| 0 <= i < k implies (#[trigger] audio[i]).stream.ordinal
            != audio[k].stream.ordinal by {
            assert(audio[i].stream.ordinal != audio[k].stream.ordinal);
        }
        lemma_audio_gain_bounds(doc, audio, k, layer_id, v);
    }
}

/// Among the first `n` keys, a key whose value names an asset puts a use of
/// that asset at `path` into the list.
proof fn lemma_keys_uses_complete(keys: Seq<Keyframe>, n: nat, path: Seq<char>, k: int)
    requires
        0 <= k < n <= keys.len(),
        keys[k].value is AssetRef,
    ensures
        keys_uses(keys, n, path).contains(
            use_at(keys[k].value->AssetRef_0, path, AllowedAssetTypes::Any),
        ),
    decreases n,
{
    let u = use_at(keys[k].value->AssetRef_0, path, AllowedAssetTypes::Any);
    let prev = keys_uses(keys, (n - 1) as nat, path);
    if k < n - 1 {
        lemma_keys_uses_complete(keys, (n - 1) as nat, path, k);
        let i = choose|i: int| 0 <= i < prev.len() && prev[i] == u;
        assert(keys_uses(keys, n, path)[i] == u);
    } else {
        assert(keys_uses(keys, n, path)[prev.len() as int] == u);
    }
}

/// Every use listed for the first `n` keys comes from one of them whose value
/// names that asset, at `path`.
proof fn lemma_keys_uses_sound(keys: Seq<Keyframe>, n: nat, path: Seq<char>, i: int)
    requires
        n <= keys.len(),
        0 <= i < keys_uses(keys, n, path).len(),
    ensures
        exists|k: int|
            0 <= k < n && #[trigger] keys[k].value == DocValue::AssetRef(
                keys_uses(keys, n, path)[i].id,
            ) && keys_uses(keys, n, path)[i] == use_at(
                keys_uses(keys, n, path)[i].id,
                path,
                AllowedAssetTypes::Any,
            ),
    decreases n,
{
    let prev = keys_uses(keys, (n - 1) as nat, path);
    if i < prev.len() {
        lemma_keys_uses_sound(keys, (n - 1) as nat, path, i);
        assert(keys_uses(keys, n, path)[i] == prev[i]);
        let k = choose|k: int|
            0 <= k < n - 1 && #[trigger] keys[k].value == DocValue::AssetRef(prev[i].id)
                && prev[i] == use_at(prev[i].id, path, AllowedAssetTypes::Any);
        assert(keys[k].value == DocValue::AssetRef(keys_uses(keys, n, path)[i].id));
    } else {
        let k = n - 1;
        assert(keys[k].value == DocValue::AssetRef(keys_uses(keys, n, path)[i].id));
    }
}

/// The inventory of a keyframed parameter at `path` lists, for every key whose
/// value is an asset reference, a use of that asset at `path` accepting any
/// media type; and it lists nothing else.
pub proof fn lemma_keyframed_param_uses(track: KeyframeTrack, path: Seq<char>)
    ensures
        forall|k: int|
            0 <= k < track.keys@.len() && (#[trigger] track.keys@[k]).value is AssetRef ==> param_uses(
                DocParam::Keyframes(track),
                path,
            ).contains(use_at(track.keys@[k].value->AssetRef_0, path, AllowedAssetTypes::Any)),
        forall|i: int|
            0 <= i < param_uses(DocParam::Keyframes(track), path).len() ==> exists|k: int|
                0 <= k < track.keys@.len() && #[trigger] track.keys@[k].value == DocValue::AssetRef(
                    (#[trigger] param_uses(DocParam::Keyframes(track), path)[i]).id,
                ) && param_uses(DocParam::Keyframes(track), path)[i] == use_at(
                    param_uses(DocParam::Keyframes(track), path)[i].id,
                    path,
                    AllowedAssetTypes::Any,
                ),
{
    let keys = track.keys@;
    assert(param_uses(DocParam::Keyframes(track), path) == keys_uses(keys, keys.len(), path));
    assert forall|k: int| 0 <= k < keys.len() && (#[trigger] track.keys@[k]).value is AssetRef implies param_uses(
        DocParam::Keyframes(track),
        path,
    ).contains(use_at(track.keys@[k].value->AssetRef_0, path, AllowedAssetTypes::Any)) by {
        lemma_keys_uses_complete(keys, keys.len(), path, k);
    }
    assert forall|i: int| 0 <= i < param_uses(DocParam::Keyframes(track), path).len() implies exists|k: int|
        0 <= k < track.keys@.len() && #[trigger] track.keys@[k].value == DocValue::AssetRef(
            (#[trigger] param_uses(DocParam::Keyframes(track), path)[i]).id,
        ) && param_uses(DocParam::Keyframes(track), path)[i] == use_at(
            param_uses(DocParam::Keyframes(track), path)[i].id,
            path,
            AllowedAssetTypes::Any,
        ) by {
        lemma_keys_uses_sound(keys, keys.len(), path, i);
    }
}

/// The parent an envelope names, if any.
pub open spec fn envelope_parents(env: ItemEnvelope) -> Seq<u64> {
    match env.transform.parent {
        Some(p) => seq![p.raw],
        None => seq![],
    }
}

/// The parents named by a track item and, for a group, by its children.
pub open spec fn item_parents(item: TrackItem) -> Seq<u64>
    decreases item, 0nat,
{
    match item {
        TrackItem::Clip(clip) => envelope_parents(clip.envelope),
        TrackItem::Group(g) => envelope_parents(g.envelope) + children_parents(
            g,
            g.children@.len(),
        ),
    }
}

/// The parents named by the first `n` children of a group.
pub open spec fn children_parents(g: Group, n: nat) -> Seq<u64>
    decreases g, n,
{
    if n == 0 || n > g.children@.len() {
        seq![]
    } else {
        children_parents(g, (n - 1) as nat) + item_parents(g.children@[n - 1])
    }
}

/// The parents named by the first `n` items of a list.
pub open spec fn items_parents(items: Seq<TrackItem>, n: nat) -> Seq<u64>
    decreases n,
{
    if n == 0 {
        seq![]
    } else {
        items_parents(items, (n - 1) as nat) + item_parents(items[n - 1])
    }
}

/// The parents named anywhere in the first `n` tracks.
pub open spec fn tracks_parents(tracks: Seq<Track>, n: nat) -> Seq<u64>
    decreases n,
{
    if n == 0 {
        seq![]
    } else {
        tracks_parents(tracks, (n - 1) as nat) + items_parents(
            tracks[n - 1].items@,
            tracks[n - 1].items@.len(),
        )
    }
}

/// Every layer of the list is registered in the document.
pub open spec fn all_registered(doc: Document, ids: Seq<u64>) -> bool {
    forall|i: int| 0 <= i < ids.len() ==> knows_layer(doc, #[trigger] ids[i])
}

proof fn lemma_registered_concat(doc: Document, a: Seq<u64>, b: Seq<u64>)
    requires
        all_registered(doc, a),
        all_registered(doc, b),
    ensures
        all_registered(doc, a + b),
{
    assert forall|i: int| 0 <= i < (a + b).len() implies knows_layer(doc, #[trigger] (a + b)[i]) by {
        if i < a.len() {
            assert((a + b)[i] == a[i]);
        } else {
            assert((a + b)[i] == b[i - a.len()]);
        }
    }
}

/// A registered, not yet seen layer whose transform names an unregistered
/// parent is refused with that parent's identity.
pub proof fn lemma_unregistered_parent_refused(doc: Document, env: ItemEnvelope, st: CheckState)
    requires
        knows_layer(doc, env.layer_id.raw),
        !st.0.contains(env.layer_id.raw),
        env.transform.parent is Some,
        !knows_layer(doc, env.transform.parent->0.raw),
    ensures
        envelope_step(doc, env, st).0 == Err::<(), DocumentErrorView>(
            DocumentErrorView::UnknownLayerId { id: env.transform.parent->0.raw },
        ),
{
}

/// A passing envelope names only a registered parent.
proof fn lemma_envelope_parent_registered(doc: Document, env: ItemEnvelope, st: CheckState)
    requires
        envelope_step(doc, env, st).0 is Ok,
    ensures
        all_registered(doc, envelope_parents(env)),
{
}

/// A passing item names only registered parents, its children included.
pub proof fn lemma_item_parents_registered(doc: Document, item: TrackItem, st: CheckState)
    requires
        item_step(doc, item, st).0 is Ok,
    ensures
        all_registered(doc, item_parents(item)),
    decreases item, 0nat,
{
    match item {
        TrackItem::Clip(clip) => {
            lemma_envelope_parent_registered(doc, clip.envelope, st);
        },
        TrackItem::Group(g) => {
            let st1 = envelope_step(doc, g.envelope, st).1;
            lemma_envelope_parent_registered(doc, g.envelope, st);
            lemma_children_parents_registered(doc, g, g.children@.len(), st1);
            lemma_registered_concat(
                doc,
                envelope_parents(g.envelope),
                children_parents(g, g.children@.len()),
            );
        },
    }
}

/// Passing children name only registered parents.
pub proof fn lemma_children_parents_registered(doc: Document, g: Group, n: nat, st: CheckState)
    requires
        children_step(doc, g, n, st).0 is Ok,
    ensures
        all_registered(doc, children_parents(g, n)),
    decreases g, n,
{
    if n == 0 || n > g.children@.len() {
    } else {
        let st1 = children_step(doc, g, (n - 1) as nat, st).1;
        lemma_children_parents_registered(doc, g, (n - 1) as nat, st);
        lemma_item_parents_registered(doc, g.children@[n - 1], st1);
        lemma_registered_concat(
            doc,
            children_parents(g, (n - 1) as nat),
            item_parents(g.children@[n - 1]),
        );
    }
}

/// Passing items name only registered parents.
pub proof fn lemma_items_parents_registered(doc: Document, items: Seq<TrackItem>, n: nat, st: CheckState)
    requires
        items_step(doc, items, n, st).0 is Ok,
    ensures
        all_registered(doc, items_parents(items, n)),
    decreases n,
{
    if n > 0 {
        let st1 = items_step(doc, items, (n - 1) as nat, st).1;
        lemma_items_parents_registered(doc, items, (n - 1) as nat, st);
        lemma_item_parents_registered(doc, items[n - 1], st1);
        lemma_registered_concat(doc, items_parents(items, (n - 1) as nat), item_parents(items[n - 1]));
    }
}

/// Passing tracks name only registered parents.
pub proof fn lemma_tracks_parents_registered(doc: Document, tracks: Seq<Track>, n: nat, st: CheckState)
    requires
        tracks_step(doc, tracks, n, st).0 is Ok,
    ensures
        all_registered(doc, tracks_parents(tracks, n)),
    decreases n,
{
    if n > 0 {
        let st1 = tracks_step(doc, tracks, (n - 1) as nat, st).1;
        lemma_tracks_parents_registered(doc, tracks, (n - 1) as nat, st);
        lemma_items_parents_registered(doc, tracks[n - 1].items@, tracks[n - 1].items@.len(), st1);
        lemma_registered_concat(
            doc,
            tracks_parents(tracks, (n - 1) as nat),
            items_parents(tracks[n - 1].items@, tracks[n - 1].items@.len()),
        );
    }
}

/// In a document whose track walk passes, every parent that a layer's
/// transform names, in any track or group, is a registered layer.
pub proof fn lemma_passing_document_parents_registered(doc: Document)
    requires
        document_walk(doc).0 is Ok,
    ensures
        all_registered(doc, tracks_parents(doc.tracks@, doc.tracks@.len())),
{
    lemma_tracks_parents_registered(doc, doc.tracks@, doc.tracks@.len(), (Set::empty(), Map::empty()));
}

} // verus!
