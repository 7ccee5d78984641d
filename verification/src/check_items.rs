//! Structural checks of the clips and groups of a track: the envelope of
//! every layer, clip intervals and time maps, the components of each source,
//! and the recursive walk over groups. The walk also records every layer seen
//! and every parent link, for the duplicate and cycle checks.

use crate::check_param::{
    content_result, param_result, path_op_result, transform_result, validate_param,
    validate_path_op_params, validate_transform2d, validate_vector_content,
};
use crate::document::{
    and_then, knows_definition, knows_layer, result_view, Document, DocumentError,
    DocumentErrorView,
};
use crate::expect::{any_slot, envelope_opacity, non_negative_slot, unit_interval_slot, ParamConstraints};
use crate::float::Float64;
use crate::param::DocParam;
use crate::param_map::ParamEntry;
use crate::schema::{
    AudioComponent, Clip, ClipSource, EffectUse, Group, ItemEnvelope, StreamKind, TrackItem,
    VideoComponent,
};
use crate::text::{decimal, join, join_indexed, layer_base, layer_path};
use crate::time::{
    rt_lt, sum_denom, sum_fits, sum_numer, time_map_valid, RationalTime, TimeMapError,
};
use std::collections::{HashMap, HashSet};
use vstd::prelude::*;

verus! {

broadcast use vstd::std_specs::hash::group_hash_axioms;

/// The layers seen so far, and the parent link of each layer that has one.
pub type CheckState = (Set<u64>, Map<u64, u64>);

/// The outcome of a check together with the state after it.
pub type StepResult = (Result<(), DocumentErrorView>, CheckState);

/// The first dangling reference among the first `n` effect uses of a layer.
pub open spec fn effects_result(
    doc: Document,
    effects: Seq<EffectUse>,
    n: nat,
    layer_id: u64,
) -> Result<(), DocumentErrorView>
    decreases n,
{
    if n == 0 {
        Ok(())
    } else {
        and_then(
            effects_result(doc, effects, (n - 1) as nat, layer_id),
            if knows_definition(doc, effects[n - 1].definition_id) {
                Ok(())
            } else {
                Err(
                    DocumentErrorView::DanglingEffectDefinition {
                        layer_id,
                        id: effects[n - 1].id.raw,
                        definition_id: effects[n - 1].definition_id.raw,
                    },
                )
            },
        )
    }
}

/// The checks of an envelope that do not touch the state: its transform, its
/// opacity, and that every effect use names a definition.
pub open spec fn envelope_checks(doc: Document, env: ItemEnvelope) -> Result<(), DocumentErrorView> {
    let id = env.layer_id.raw;
    and_then(
        transform_result(doc, env.transform, layer_path(id)),
        and_then(
            param_result(doc, env.opacity, unit_interval_slot(), layer_path(id) + ".opacity"@),
            effects_result(doc, env.effects@, env.effects@.len(), id),
        ),
    )
}

/// Checking an envelope: its layer is registered and not seen before (it is
/// then seen), its parent is registered (the link is then recorded), then
/// the state-free checks.
pub open spec fn envelope_step(doc: Document, env: ItemEnvelope, st: CheckState) -> StepResult {
    let id = env.layer_id.raw;
    if !knows_layer(doc, id) {
        (Err(DocumentErrorView::UnknownLayerId { id }), st)
    } else if st.0.contains(id) {
        (Err(DocumentErrorView::DuplicateLayerId { id }), st)
    } else {
        let seen = st.0.insert(id);
        match env.transform.parent {
            Some(p) => if !knows_layer(doc, p.raw) {
                (Err(DocumentErrorView::UnknownLayerId { id: p.raw }), (seen, st.1))
            } else {
                (envelope_checks(doc, env), (seen, st.1.insert(id, p.raw)))
            },
            None => (envelope_checks(doc, env), (seen, st.1)),
        }
    }
}

/// The video component, if any, is video stream 0.
pub open spec fn video_result(video: Option<VideoComponent>, layer_id: u64) -> Result<
    (),
    DocumentErrorView,
> {
    match video {
        None => Ok(()),
        Some(v) => if v.stream.kind != StreamKind::Video {
            Err(DocumentErrorView::VideoComponentKindMismatch { layer_id })
        } else if v.stream.ordinal != 0 {
            Err(
                DocumentErrorView::UnsupportedVideoStreamOrdinal {
                    layer_id,
                    ordinal: v.stream.ordinal,
                },
            )
        } else {
            Ok(())
        },
    }
}

/// The first index in `[j, k)` whose audio stream has ordinal `ordinal`.
pub open spec fn first_with_ordinal(
    audio: Seq<AudioComponent>,
    ordinal: u32,
    j: int,
    k: int,
) -> Option<int>
    decreases k - j,
{
    if j >= k {
        None
    } else if audio[j].stream.ordinal == ordinal {
        Some(j)
    } else {
        first_with_ordinal(audio, ordinal, j + 1, k)
    }
}

/// The path of the gain of the audio component `index` of layer `layer_id`.
pub open spec fn audio_gain_path(layer_id: u64, index: int) -> Seq<char> {
    layer_path(layer_id) + ".source.audio"@ + "["@ + decimal(index as nat) + "]"@ + ".gain"@
}

/// One audio component: an audio stream, whose ordinal no earlier component
/// uses, with a finite gain of at least zero.
pub open spec fn audio_component_result(
    doc: Document,
    audio: Seq<AudioComponent>,
    index: int,
    layer_id: u64,
) -> Result<(), DocumentErrorView> {
    let comp = audio[index];
    if comp.stream.kind != StreamKind::Audio {
        Err(DocumentErrorView::AudioComponentKindMismatch { layer_id, index })
    } else {
        match first_with_ordinal(audio, comp.stream.ordinal, 0, index) {
            Some(first) => Err(
                DocumentErrorView::DuplicateAudioStreamOrdinal {
                    layer_id,
                    ordinal: comp.stream.ordinal,
                    first_index: first,
                    second_index: index,
                },
            ),
            None => param_result(
                doc,
                comp.gain,
                non_negative_slot(),
                audio_gain_path(layer_id, index),
            ),
        }
    }
}

/// The first failing component among the first `n` audio components.
pub open spec fn audio_result(
    doc: Document,
    audio: Seq<AudioComponent>,
    n: nat,
    layer_id: u64,
) -> Result<(), DocumentErrorView>
    decreases n,
{
    if n == 0 {
        Ok(())
    } else {
        and_then(
            audio_result(doc, audio, (n - 1) as nat, layer_id),
            audio_component_result(doc, audio, n - 1, layer_id),
        )
    }
}

/// The first failing parameter among the first `n` named parameters of a
/// plugin source at `base`.
pub open spec fn plugin_params_result(
    doc: Document,
    entries: Seq<ParamEntry>,
    n: nat,
    base: Seq<char>,
) -> Result<(), DocumentErrorView>
    decreases n,
{
    if n == 0 {
        Ok(())
    } else {
        and_then(
            plugin_params_result(doc, entries, (n - 1) as nat, base),
            param_result(doc, entries[n - 1].param, any_slot(), base + "."@ + entries[n - 1].name@),
        )
    }
}

/// The first failing operator among the first `n` modifiers at `base`.
pub open spec fn modifiers_result(
    doc: Document,
    ops: Seq<crate::schema::PathOp>,
    n: nat,
    base: Seq<char>,
) -> Result<(), DocumentErrorView>
    decreases n,
{
    if n == 0 {
        Ok(())
    } else {
        and_then(
            modifiers_result(doc, ops, (n - 1) as nat, base),
            path_op_result(
                doc,
                ops[n - 1],
                base + "["@ + decimal((n - 1) as nat) + "]"@ + ""@,
            ),
        )
    }
}

/// The checks of a clip's source.
pub open spec fn source_result(doc: Document, source: ClipSource, layer_id: u64) -> Result<
    (),
    DocumentErrorView,
> {
    match source {
        ClipSource::Asset { asset: _, video, audio } => if video is None && audio@.len() == 0 {
            Err(DocumentErrorView::EmptyAssetComponents { layer_id })
        } else {
            and_then(
                video_result(video, layer_id),
                audio_result(doc, audio@, audio@.len(), layer_id),
            )
        },
        ClipSource::Plugin { plugin_id, effect_version: _, params, extra: _ } => if plugin_id@.len()
            == 0 {
            Err(DocumentErrorView::EmptySourcePluginId { layer_id })
        } else {
            plugin_params_result(
                doc,
                params.entry_seq(),
                params.entry_seq().len(),
                layer_path(layer_id) + ".source"@,
            )
        },
        ClipSource::Vector { recipe } => and_then(
            content_result(doc, recipe.content, layer_path(layer_id) + ".recipe"@),
            modifiers_result(
                doc,
                recipe.modifiers@,
                recipe.modifiers@.len(),
                layer_path(layer_id) + ".recipe.modifiers"@,
            ),
        ),
    }
}

/// The checks of a clip after its envelope: a positive duration, an end that
/// can be written and does not pass the end of the composition (a negative
/// start is allowed), a valid time map, and its source.
pub open spec fn clip_checks(doc: Document, clip: Clip) -> Result<(), DocumentErrorView> {
    let id = clip.envelope.layer_id.raw;
    let comp = doc.composition.duration_spec();
    if clip.duration.numer() <= 0 {
        Err(DocumentErrorView::NonPositiveClipDuration { layer_id: id })
    } else if !sum_fits(clip.start, clip.duration) {
        Err(DocumentErrorView::ClipIntervalOverflow { layer_id: id })
    } else if comp.numer() * sum_denom(clip.start, clip.duration) < sum_numer(
        clip.start,
        clip.duration,
    ) * comp.denom() {
        Err(
            DocumentErrorView::ClipPastComposition {
                layer_id: id,
                end: (sum_numer(clip.start, clip.duration), sum_denom(clip.start, clip.duration)),
                comp: (comp.numer(), comp.denom()),
            },
        )
    } else if !time_map_valid(clip.time_map) {
        Err(
            DocumentErrorView::InvalidTimeMap {
                layer_id: id,
                source: TimeMapError::NonPositiveSpeed,
            },
        )
    } else {
        source_result(doc, clip.source, id)
    }
}

/// Checking a clip: its envelope, then the clip's own checks.
pub open spec fn clip_step(doc: Document, clip: Clip, st: CheckState) -> StepResult {
    let (r, st1) = envelope_step(doc, clip.envelope, st);
    if r is Err {
        (r, st1)
    } else {
        (clip_checks(doc, clip), st1)
    }
}

/// Checking a track item.
pub open spec fn item_step(doc: Document, item: TrackItem, st: CheckState) -> StepResult
    decreases item, 0nat,
{
    match item {
        TrackItem::Clip(clip) => clip_step(doc, clip, st),
        TrackItem::Group(g) => group_step(doc, g, st),
    }
}

/// Checking a group: its envelope, then its children in order.
pub open spec fn group_step(doc: Document, g: Group, st: CheckState) -> StepResult
    decreases g, g.children@.len() + 1,
{
    let (r, st1) = envelope_step(doc, g.envelope, st);
    if r is Err {
        (r, st1)
    } else {
        children_step(doc, g, g.children@.len(), st1)
    }
}

/// Checking the first `n` children of a group in order, stopping at the
/// first failure.
pub open spec fn children_step(doc: Document, g: Group, n: nat, st: CheckState) -> StepResult
    decreases g, n,
{
    if n == 0 || n > g.children@.len() {
        (Ok(()), st)
    } else {
        let (r, st1) = children_step(doc, g, (n - 1) as nat, st);
        if r is Err {
            (r, st1)
        } else {
            item_step(doc, g.children@[n - 1], st1)
        }
    }
}

/// Once an effect use dangles, the result of the stack is that failure.
proof fn lemma_effects_failure_sticks(doc: Document, effects: Seq<EffectUse>, n: nat, m: nat, id: u64)
    requires
        n <= m,
        effects_result(doc, effects, n, id) is Err,
    ensures
        effects_result(doc, effects, m, id) == effects_result(doc, effects, n, id),
    decreases m,
{
    if m > n {
        lemma_effects_failure_sticks(doc, effects, n, (m - 1) as nat, id);
    }
}

/// Once an audio component fails, the result of the list is that failure.
proof fn lemma_audio_failure_sticks(
    doc: Document,
    audio: Seq<AudioComponent>,
    n: nat,
    m: nat,
    id: u64,
)
    requires
        n <= m,
        audio_result(doc, audio, n, id) is Err,
    ensures
        audio_result(doc, audio, m, id) == audio_result(doc, audio, n, id),
    decreases m,
{
    if m > n {
        lemma_audio_failure_sticks(doc, audio, n, (m - 1) as nat, id);
    }
}

/// Once a plugin parameter fails, the result of the map is that failure.
proof fn lemma_plugin_params_failure_sticks(
    doc: Document,
    entries: Seq<ParamEntry>,
    n: nat,
    m: nat,
    base: Seq<char>,
)
    requires
        n <= m,
        plugin_params_result(doc, entries, n, base) is Err,
    ensures
        plugin_params_result(doc, entries, m, base) == plugin_params_result(doc, entries, n, base),
    decreases m,
{
    if m > n {
        lemma_plugin_params_failure_sticks(doc, entries, n, (m - 1) as nat, base);
    }
}

/// Once a modifier fails, the result of the list is that failure.
proof fn lemma_modifiers_failure_sticks(
    doc: Document,
    ops: Seq<crate::schema::PathOp>,
    n: nat,
    m: nat,
    base: Seq<char>,
)
    requires
        n <= m,
        modifiers_result(doc, ops, n, base) is Err,
    ensures
        modifiers_result(doc, ops, m, base) == modifiers_result(doc, ops, n, base),
    decreases m,
{
    if m > n {
        lemma_modifiers_failure_sticks(doc, ops, n, (m - 1) as nat, base);
    }
}

/// Once a child fails, the result and the state of the group's walk are
/// those of that failure.
proof fn lemma_children_failure_sticks(doc: Document, g: Group, n: nat, m: nat, st: CheckState)
    requires
        n <= m <= g.children@.len(),
        children_step(doc, g, n, st).0 is Err,
    ensures
        children_step(doc, g, m, st) == children_step(doc, g, n, st),
    decreases m,
{
    if m > n {
        lemma_children_failure_sticks(doc, g, n, (m - 1) as nat, st);
    }
}

/// Checks an envelope: registered, not a duplicate, registered parent (the
/// layer is recorded as seen and its parent link is recorded), then its
/// transform, opacity and effect uses.
#[verifier::loop_isolation(false)]
pub fn validate_envelope(
    doc: &Document,
    env: &ItemEnvelope,
    seen_layers: &mut HashSet<u64>,
    parents: &mut HashMap<u64, u64>,
) -> (r: Result<(), DocumentError>)
    ensures
        (result_view(r), (final(seen_layers)@, final(parents)@)) == envelope_step(
            *doc,
            *env,
            (old(seen_layers)@, old(parents)@),
        ),
{
    let id = env.layer_id.get();
    let r = doc.require_layer(env.layer_id);
    if r.is_err() {
        return r;
    }
    let ghost seen0 = seen_layers@;
    if !seen_layers.insert(id) {
        assert(seen0.insert(id) =~= seen0);
        return Err(DocumentError::DuplicateLayerId { id });
    }
    if let Some(parent) = env.transform.parent {
        let r = doc.require_layer(parent);
        if r.is_err() {
            return r;
        }
        parents.insert(id, parent.get());
    }
    let base = layer_base(id);
    let r = validate_transform2d(doc, &env.transform, base.as_str());
    if r.is_err() {
        return r;
    }
    let opacity_path = join(base.as_str(), ".opacity");
    let r = validate_param(doc, &env.opacity, envelope_opacity(), opacity_path.as_str());
    if r.is_err() {
        return r;
    }
    let mut i: usize = 0;
    while i < env.effects.len()
        invariant
            i <= env.effects@.len(),
            id == env.layer_id.raw,
            effects_result(*doc, env.effects@, i as nat, id) == Ok::<(), DocumentErrorView>(()),
        decreases env.effects.len() - i,
    {
        let use_ = env.effects[i];
        if doc.effect_definition(use_.definition_id).is_none() {
            proof {
                lemma_effects_failure_sticks(*doc, env.effects@, (i + 1) as nat, env.effects@.len(), id);
            }
            return Err(
                DocumentError::DanglingEffectDefinition {
                    layer_id: id,
                    id: use_.id.get(),
                    definition_id: use_.definition_id.get(),
                },
            );
        }
        i = i + 1;
    }
    Ok(())
}

/// Checks a parameter whose meaning the document does not know (plugin and
/// effect parameters): only that its values are finite and its links resolve.
pub fn validate_param_structure(doc: &Document, param: &DocParam, path: &str) -> (r: Result<
    (),
    DocumentError,
>)
    ensures
        result_view(r) == param_result(*doc, *param, any_slot(), path@),
{
    validate_param(doc, param, ParamConstraints::any(), path)
}

/// The first earlier audio component with the same stream ordinal as
/// component `index`.
fn earlier_with_ordinal(audio: &Vec<AudioComponent>, index: usize) -> (r: Option<usize>)
    requires
        index < audio@.len(),
    ensures
        r matches Some(j) ==> first_with_ordinal(audio@, audio@[index as int].stream.ordinal, 0, index as int) == Some(j as int),
        r is None ==> first_with_ordinal(audio@, audio@[index as int].stream.ordinal, 0, index as int) is None,
{
    let ordinal = audio[index].stream.ordinal;
    let mut j: usize = 0;
    while j < index
        invariant
            j <= index < audio@.len(),
            ordinal == audio@[index as int].stream.ordinal,
            first_with_ordinal(audio@, ordinal, 0, index as int) == first_with_ordinal(
                audio@,
                ordinal,
                j as int,
                index as int,
            ),
        decreases index - j,
    {
        if audio[j].stream.ordinal == ordinal {
            return Some(j);
        }
        j = j + 1;
    }
    None
}

/// Checks the components of an asset source: at least one, a video that is
/// video stream 0, audio streams with distinct ordinals and gains of at
/// least zero.
#[verifier::loop_isolation(false)]
fn validate_asset_components(
    doc: &Document,
    video: &Option<VideoComponent>,
    audio: &Vec<AudioComponent>,
    layer_id: u64,
) -> (r: Result<(), DocumentError>)
    ensures
        result_view(r) == if video is None && audio@.len() == 0 {
            Err(DocumentErrorView::EmptyAssetComponents { layer_id })
        } else {
            and_then(
                video_result(*video, layer_id),
                audio_result(*doc, audio@, audio@.len(), layer_id),
            )
        },
{
    if video.is_none() && audio.len() == 0 {
        return Err(DocumentError::EmptyAssetComponents { layer_id });
    }
    if let Some(v) = video {
        if let StreamKind::Audio = v.stream.kind {
            return Err(DocumentError::VideoComponentKindMismatch { layer_id });
        }
        if v.stream.ordinal != 0 {
            return Err(
                DocumentError::UnsupportedVideoStreamOrdinal { layer_id, ordinal: v.stream.ordinal },
            );
        }
    }
    let audio_base = join(layer_base(layer_id).as_str(), ".source.audio");
    let mut index: usize = 0;
    while index < audio.len()
        invariant
            index <= audio@.len(),
            audio_base@ == layer_path(layer_id) + ".source.audio"@,
            audio_result(*doc, audio@, index as nat, layer_id) == Ok::<(), DocumentErrorView>(()),
        decreases audio.len() - index,
    {
        let comp = &audio[index];
        let failure: Option<DocumentError> = if let StreamKind::Video = comp.stream.kind {
            Some(DocumentError::AudioComponentKindMismatch { layer_id, index })
        } else {
            match earlier_with_ordinal(audio, index) {
                Some(first_index) => Some(
                    DocumentError::DuplicateAudioStreamOrdinal {
                        layer_id,
                        ordinal: comp.stream.ordinal,
                        first_index,
                        second_index: index,
                    },
                ),
                None => {
                    let gain_path = join_indexed(audio_base.as_str(), index as u64, ".gain");
                    match validate_param(
                        doc,
                        &comp.gain,
                        ParamConstraints::min_f64(Float64::zero()),
                        gain_path.as_str(),
                    ) {
                        Ok(()) => None,
                        Err(e) => Some(e),
                    }
                },
            }
        };
        if let Some(e) = failure {
            proof {
                lemma_audio_failure_sticks(*doc, audio@, (index + 1) as nat, audio@.len(), layer_id);
            }
            return Err(e);
        }
        index = index + 1;
    }
    Ok(())
}

/// Checks a clip's source.
#[verifier::loop_isolation(false)]
fn validate_source(doc: &Document, source: &ClipSource, layer_id: u64) -> (r: Result<
    (),
    DocumentError,
>)
    ensures
        result_view(r) == source_result(*doc, *source, layer_id),
{
    match source {
        ClipSource::Asset { asset: _, video, audio } => validate_asset_components(
            doc,
            video,
            audio,
            layer_id,
        ),
        ClipSource::Plugin { plugin_id, effect_version: _, params, extra: _ } => {
            if plugin_id.as_str().is_empty() {
                return Err(DocumentError::EmptySourcePluginId { layer_id });
            }
            let source_path = join(layer_base(layer_id).as_str(), ".source");
            let mut i: usize = 0;
            while i < params.len()
                invariant
                    i <= params.entry_seq().len(),
                    source_path@ == layer_path(layer_id) + ".source"@,
                    plugin_params_result(*doc, params.entry_seq(), i as nat, source_path@) == Ok::<
                        (),
                        DocumentErrorView,
                    >(()),
                decreases params.entry_seq().len() - i,
            {
                let entry = params.entry(i);
                let dotted = join(source_path.as_str(), ".");
                let path = join(dotted.as_str(), entry.name.as_str());
                let r = validate_param_structure(doc, &entry.param, path.as_str());
                if r.is_err() {
                    proof {
                        lemma_plugin_params_failure_sticks(
                            *doc,
                            params.entry_seq(),
                            (i + 1) as nat,
                            params.entry_seq().len(),
                            source_path@,
                        );
                    }
                    return r;
                }
                i = i + 1;
            }
            Ok(())
        },
        ClipSource::Vector { recipe } => {
            let base = layer_base(layer_id);
            let recipe_path = join(base.as_str(), ".recipe");
            let r = validate_vector_content(doc, &recipe.content, recipe_path.as_str());
            if r.is_err() {
                return r;
            }
            let modifiers_path = join(base.as_str(), ".recipe.modifiers");
            let mut i: usize = 0;
            while i < recipe.modifiers.len()
                invariant
                    i <= recipe.modifiers@.len(),
                    modifiers_path@ == layer_path(layer_id) + ".recipe.modifiers"@,
                    modifiers_result(*doc, recipe.modifiers@, i as nat, modifiers_path@) == Ok::<
                        (),
                        DocumentErrorView,
                    >(()),
                decreases recipe.modifiers.len() - i,
            {
                let path = join_indexed(modifiers_path.as_str(), i as u64, "");
                let r = validate_path_op_params(doc, &recipe.modifiers[i], path.as_str());
                if r.is_err() {
                    proof {
                        lemma_modifiers_failure_sticks(
                            *doc,
                            recipe.modifiers@,
                            (i + 1) as nat,
                            recipe.modifiers@.len(),
                            modifiers_path@,
                        );
                    }
                    return r;
                }
                i = i + 1;
            }
            Ok(())
        },
    }
}

/// Checks a clip: its envelope; a positive duration; an end `start +
/// duration` that can be written and is not past the composition's end (the
/// start may be negative, as a trimmed-in clip); its time map; its source.
pub fn validate_clip(
    doc: &Document,
    clip: &Clip,
    seen_layers: &mut HashSet<u64>,
    parents: &mut HashMap<u64, u64>,
) -> (r: Result<(), DocumentError>)
    ensures
        (result_view(r), (final(seen_layers)@, final(parents)@)) == clip_step(
            *doc,
            *clip,
            (old(seen_layers)@, old(parents)@),
        ),
{
    let layer_id = clip.envelope.layer_id.get();
    let r = validate_envelope(doc, &clip.envelope, seen_layers, parents);
    if r.is_err() {
        return r;
    }
    if clip.duration.le(&RationalTime::zero()) {
        return Err(DocumentError::NonPositiveClipDuration { layer_id });
    }
    let end = match clip.start.try_add(&clip.duration) {
        Ok(end) => end,
        Err(_) => {
            return Err(DocumentError::ClipIntervalOverflow { layer_id });
        },
    };
    let comp = doc.composition.duration();
    if comp.lt(&end) {
        return Err(DocumentError::ClipPastComposition { layer_id, end, comp: *comp });
    }
    if let Err(source) = clip.time_map.validate() {
        return Err(DocumentError::InvalidTimeMap { layer_id, source });
    }
    validate_source(doc, &clip.source, layer_id)
}

/// Checks a group: its envelope, then each child in order.
pub fn validate_group(
    doc: &Document,
    group: &Group,
    seen_layers: &mut HashSet<u64>,
    parents: &mut HashMap<u64, u64>,
) -> (r: Result<(), DocumentError>)
    ensures
        (result_view(r), (final(seen_layers)@, final(parents)@)) == group_step(
            *doc,
            *group,
            (old(seen_layers)@, old(parents)@),
        ),
    decreases group,
{
    let r = validate_envelope(doc, &group.envelope, seen_layers, parents);
    if r.is_err() {
        return r;
    }
    let ghost start: CheckState = (seen_layers@, parents@);
    let mut i: usize = 0;
    while i < group.children.len()
        invariant
            i <= group.children@.len(),
            group_step(*doc, *group, (old(seen_layers)@, old(parents)@)) == children_step(
                *doc,
                *group,
                group.children@.len(),
                start,
            ),
            children_step(*doc, *group, i as nat, start) == (
                Ok::<(), DocumentErrorView>(()),
                (seen_layers@, parents@),
            ),
        decreases group.children.len() - i,
    {
        proof {
            broadcast use vstd::std_specs::vec::axiom_vec_decreases_to_view;

            assert(decreases_to!(*group => group.children));
            assert(decreases_to!(group.children => group.children@));
            assert(decreases_to!(group.children@ => group.children@[i as int]));
        }
        let r = validate_item(doc, &group.children[i], seen_layers, parents);
        if r.is_err() {
            proof {
                lemma_children_failure_sticks(
                    *doc,
                    *group,
                    (i + 1) as nat,
                    group.children@.len(),
                    start,
                );
            }
            return r;
        }
        i = i + 1;
    }
    Ok(())
}

/// Checks a track item: a clip, or a group and its children.
pub fn validate_item(
    doc: &Document,
    item: &TrackItem,
    seen_layers: &mut HashSet<u64>,
    parents: &mut HashMap<u64, u64>,
) -> (r: Result<(), DocumentError>)
    ensures
        (result_view(r), (final(seen_layers)@, final(parents)@)) == item_step(
            *doc,
            *item,
            (old(seen_layers)@, old(parents)@),
        ),
    decreases item,
{
    match item {
        TrackItem::Clip(clip) => validate_clip(doc, clip, seen_layers, parents),
        TrackItem::Group(group) => {
            proof {
                assert(decreases_to!(*item => (*item)->Group_0));
            }
            validate_group(doc, group, seen_layers, parents)
        },
    }
}

/// The item, or a layer inside it, has an effect use.
pub open spec fn item_has_effect_use(item: TrackItem) -> bool
    decreases item, 0nat,
{
    match item {
        TrackItem::Clip(clip) => clip.envelope.effects@.len() > 0,
        TrackItem::Group(g) => g.envelope.effects@.len() > 0 || children_have_effect_use(
            g,
            g.children@.len(),
        ),
    }
}

/// One of the first `n` children of the group has an effect use somewhere.
pub open spec fn children_have_effect_use(g: Group, n: nat) -> bool
    decreases g, n,
{
    if n == 0 || n > g.children@.len() {
        false
    } else {
        children_have_effect_use(g, (n - 1) as nat) || item_has_effect_use(g.children@[n - 1])
    }
}

/// Some layer of some track has an effect use.
pub open spec fn tracks_have_effect_use(tracks: Seq<crate::schema::Track>) -> bool {
    exists|t: int, i: int|
        0 <= t < tracks.len() && 0 <= i < tracks[t].items@.len() && #[trigger] item_has_effect_use(
            tracks[t].items@[i],
        )
}

/// Whether the item, or a layer inside it, has an effect use.
fn item_has_any_effect_use(item: &TrackItem) -> (r: bool)
    ensures
        r == item_has_effect_use(*item),
    decreases item,
{
    match item {
        TrackItem::Clip(clip) => clip.envelope.effects.len() != 0,
        TrackItem::Group(g) => {
            if g.envelope.effects.len() != 0 {
                return true;
            }
            let mut i: usize = 0;
            while i < g.children.len()
                invariant
                    i <= g.children@.len(),
                    *item == TrackItem::Group(*g),
                    children_have_effect_use(*g, i as nat) == false,
                decreases g.children.len() - i,
            {
                proof {
                    broadcast use vstd::std_specs::vec::axiom_vec_decreases_to_view;

                    assert(decreases_to!(*item => (*item)->Group_0));
                    assert(decreases_to!(*g => g.children));
                    assert(decreases_to!(g.children => g.children@));
                    assert(decreases_to!(g.children@ => g.children@[i as int]));
                }
                if item_has_any_effect_use(&g.children[i]) {
                    proof {
                        lemma_children_have_effect_use_grows(*g, (i + 1) as nat, g.children@.len());
                    }
                    return true;
                }
                i = i + 1;
            }
            false
        },
    }
}

/// Once one of the first `n` children has an effect use, so does one of the
/// first `m >= n`.
proof fn lemma_children_have_effect_use_grows(g: Group, n: nat, m: nat)
    requires
        n <= m <= g.children@.len(),
        children_have_effect_use(g, n),
    ensures
        children_have_effect_use(g, m),
    decreases m,
{
    if m > n {
        lemma_children_have_effect_use_grows(g, n, (m - 1) as nat);
    }
}

/// Whether any layer of the document, groups included, has an effect use.
pub fn document_has_any_effect_use(doc: &Document) -> (r: bool)
    ensures
        r == tracks_have_effect_use(doc.tracks@),
{
    let mut t: usize = 0;
    while t < doc.tracks.len()
        invariant
            t <= doc.tracks@.len(),
            forall|a: int, i: int|
                0 <= a < t && 0 <= i < doc.tracks@[a].items@.len() ==> !#[trigger] item_has_effect_use(
                    doc.tracks@[a].items@[i],
                ),
        decreases doc.tracks.len() - t,
    {
        let items = &doc.tracks[t].items;
        let mut i: usize = 0;
        while i < items.len()
            invariant
                t < doc.tracks@.len(),
                *items == doc.tracks@[t as int].items,
                i <= items@.len(),
                forall|j: int| 0 <= j < i ==> !#[trigger] item_has_effect_use(items@[j]),
            decreases items.len() - i,
        {
            if item_has_any_effect_use(&items[i]) {
                assert(item_has_effect_use(doc.tracks@[t as int].items@[i as int]));
                return true;
            }
            i = i + 1;
        }
        t = t + 1;
    }
    false
}

} // verus!
