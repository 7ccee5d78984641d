//! Scenarios of the document model and its checks.

use std::collections::{HashMap, HashSet};

use motolii_doc::arith::gcd;
use motolii_doc::check_items::{document_has_any_effect_use, validate_item};
use motolii_doc::cycles::detect_parent_cycles;
use motolii_doc::document::{Document, DocumentError};
use motolii_doc::float::Float64;
use motolii_doc::ids::{AssetId, EffectDefinitionId, EffectId, LayerId};
use motolii_doc::param::{DocParam, DocValue, Keyframe, KeyframeTrack, LookAtAxis};
use motolii_doc::param_map::ParamMap;
use motolii_doc::schema::{
    asset_components_require_newer_reader, AudioComponent, Clip, ClipSource, Composition,
    CompositionError, EffectDefinition, EffectInstance, EffectUse, Group, ItemEnvelope,
    Soundtrack, SoundtrackError, StreamKind, StreamSelector, Track, TrackItem, VideoComponent,
    MAX_COMPOSITION_RESOLUTION_DIMENSION,
};
use motolii_doc::source_shape::{clip_source_shape, ClipSourceKind, ClipSourceShapeError};
use motolii_doc::time::{Fps, RationalTime, RationalTimeError, TimeMap, TimeMapError};

fn f(v: f64) -> Float64 {
    Float64::from_bits(v.to_bits())
}

fn c(v: f64) -> DocParam {
    DocParam::const_f64(f(v))
}

fn rt(n: i64, d: i64) -> RationalTime {
    RationalTime::try_new(n, d).unwrap()
}

fn fps30() -> Fps {
    Fps::try_new(30, 1).unwrap()
}

/// A document with `n` registered layers (ids 0..n) and one registered track.
fn doc_with_layers(n: usize) -> Document {
    let mut doc = Document::new_current();
    for i in 0..n {
        doc.layers.allocate(&format!("layer {i}")).unwrap();
    }
    doc.track_ids.allocate("V1").unwrap();
    doc
}

fn asset_clip(layer: u64, start: RationalTime, duration: RationalTime, source: ClipSource) -> Clip {
    Clip {
        envelope: ItemEnvelope::new(LayerId::from_raw(layer)),
        start,
        duration,
        time_map: TimeMap::default(),
        source,
    }
}

fn video_clip(layer: u64) -> TrackItem {
    TrackItem::Clip(asset_clip(
        layer,
        rt(0, 1),
        rt(1, 1),
        ClipSource::asset_video_only(AssetId::from_raw(1)),
    ))
}

fn check_clip(doc: &Document, clip: Clip) -> Result<(), DocumentError> {
    let mut seen = HashSet::new();
    let mut parents = HashMap::new();
    validate_item(doc, &TrackItem::Clip(clip), &mut seen, &mut parents)
}

// --- composition ---

#[test]
fn gcd_of_aspect_parts() {
    assert_eq!(gcd(1920, 1080), 120);
    assert_eq!(gcd(16, 9), 1);
    assert_eq!(gcd(7, 0), 7);
}

#[test]
fn composition_aspect_is_reduced() {
    let comp = Composition::try_new(1920, 1080, rt(10, 1), fps30()).unwrap();
    assert_eq!((comp.aspect_num(), comp.aspect_den()), (16, 9));
    assert_eq!(comp.resolution(), None);
}

#[test]
fn composition_refuses_non_positive_aspect() {
    assert_eq!(
        Composition::try_new(0, 9, rt(10, 1), fps30()),
        Err(CompositionError::NonPositiveAspectNum(0))
    );
    assert_eq!(
        Composition::try_new(16, -9, rt(10, 1), fps30()),
        Err(CompositionError::NonPositiveAspectDen(-9))
    );
}

#[test]
fn first_version_composition() {
    let comp = Composition::new_v1();
    assert_eq!((comp.aspect_num(), comp.aspect_den()), (16, 9));
    assert_eq!(comp.duration, rt(10, 1));
}

#[test]
fn resolution_bounds() {
    assert_eq!(Composition::validate_resolution((1920, 1080)), Ok(()));
    assert_eq!(
        Composition::validate_resolution((0, 1080)),
        Err(CompositionError::NonPositiveResolution { width: 0, height: 1080 })
    );
    assert_eq!(
        Composition::validate_resolution((16385, 10)),
        Err(CompositionError::ResolutionTooLarge {
            width: 16385,
            height: 10,
            max: MAX_COMPOSITION_RESOLUTION_DIMENSION
        })
    );
    assert_eq!(Composition::validate_resolution((16384, 16384)), Ok(()));
}

#[test]
fn refused_resolution_leaves_settings_unchanged() {
    let mut comp = Composition::new_v1();
    assert_eq!(comp.set_resolution(Some((3840, 2160))), Ok(()));
    assert_eq!(comp.resolution(), Some((3840, 2160)));
    assert!(comp.set_resolution(Some((3840, 0))).is_err());
    assert_eq!(comp.resolution(), Some((3840, 2160)));
    assert_eq!(comp.set_resolution(None), Ok(()));
    assert_eq!(comp.resolution(), None);
}

// --- soundtrack ---

#[test]
fn soundtrack_gain_must_be_in_unit_interval() {
    let ok = Soundtrack::try_new(AssetId::from_raw(1), rt(0, 1), f(0.5)).unwrap();
    assert_eq!(f64::from_bits(ok.master_gain().to_bits()), 0.5);
    assert!(Soundtrack::try_new(AssetId::from_raw(1), rt(0, 1), f(1.0)).is_ok());
    assert!(matches!(
        Soundtrack::try_new(AssetId::from_raw(1), rt(0, 1), f(1.5)),
        Err(SoundtrackError::InvalidGain(_))
    ));
    assert!(Soundtrack::try_new(AssetId::from_raw(1), rt(0, 1), f(-0.1)).is_err());
    assert!(Soundtrack::try_new(AssetId::from_raw(1), rt(0, 1), f(f64::NAN)).is_err());
    assert!(Soundtrack::try_new(AssetId::from_raw(1), rt(0, 1), f(f64::INFINITY)).is_err());
}

// --- floats ---

#[test]
fn float_predicates_follow_ieee() {
    assert!(f(1.0).is_finite());
    assert!(!f(f64::INFINITY).is_finite());
    assert!(f(f64::NAN).is_nan());
    assert!(f(-2.0).lt(&f(-1.0)));
    assert!(f(-0.0).le(&f(0.0)) && f(0.0).le(&f(-0.0)));
    assert!(f(-0.0) == f(0.0));
    assert!(f(f64::NAN) != f(f64::NAN));
    assert!(!f(f64::NAN).le(&f(1.0)));
    assert!(f(f64::NEG_INFINITY).lt(&f(-1e308)));
    assert!(f(3.0).is_integral() && f(-4.0).is_integral() && f(1e20).is_integral());
    assert!(!f(2.5).is_integral() && !f(0.1).is_integral() && !f(f64::INFINITY).is_integral());
}

// --- time ---

#[test]
fn rational_time_arithmetic() {
    assert_eq!(RationalTime::try_new(1, 0), Err(RationalTimeError::NonPositiveDenominator));
    let sum = rt(1, 2).try_add(&rt(1, 3)).unwrap();
    assert_eq!(sum, rt(5, 6));
    assert!(rt(1, 2).lt(&rt(2, 3)));
    assert!(rt(2, 4).le(&rt(1, 2)) && rt(1, 2).le(&rt(2, 4)));
    assert_eq!(rt(i64::MAX, 1).try_add(&rt(1, 1)), Err(RationalTimeError::Overflow));
}

// --- clips ---

#[test]
fn clip_within_composition_passes() {
    let doc = doc_with_layers(1);
    let clip = asset_clip(0, rt(-1, 1), rt(11, 1), ClipSource::asset_video_only(AssetId::from_raw(1)));
    assert_eq!(check_clip(&doc, clip), Ok(()));
}

#[test]
fn clip_with_zero_duration_is_refused() {
    let doc = doc_with_layers(1);
    let clip = asset_clip(0, rt(0, 1), rt(0, 1), ClipSource::asset_video_only(AssetId::from_raw(1)));
    assert_eq!(check_clip(&doc, clip), Err(DocumentError::NonPositiveClipDuration { layer_id: 0 }));
}

#[test]
fn clip_past_composition_is_refused() {
    let doc = doc_with_layers(1);
    let clip = asset_clip(0, rt(5, 1), rt(6, 1), ClipSource::asset_video_only(AssetId::from_raw(1)));
    assert_eq!(
        check_clip(&doc, clip),
        Err(DocumentError::ClipPastComposition { layer_id: 0, end: rt(11, 1), comp: rt(10, 1) })
    );
}

#[test]
fn clip_end_overflow_is_refused() {
    let doc = doc_with_layers(1);
    let clip = asset_clip(
        0,
        rt(i64::MAX, 1),
        rt(1, 1),
        ClipSource::asset_video_only(AssetId::from_raw(1)),
    );
    assert_eq!(check_clip(&doc, clip), Err(DocumentError::ClipIntervalOverflow { layer_id: 0 }));
}

#[test]
fn clip_with_stopped_time_map_is_refused() {
    let doc = doc_with_layers(1);
    let mut clip = asset_clip(0, rt(0, 1), rt(1, 1), ClipSource::asset_video_only(AssetId::from_raw(1)));
    clip.time_map.speed = rt(0, 1);
    assert_eq!(
        check_clip(&doc, clip),
        Err(DocumentError::InvalidTimeMap { layer_id: 0, source: TimeMapError::NonPositiveSpeed })
    );
}

#[test]
fn asset_components_are_checked() {
    let doc = doc_with_layers(1);
    let asset = AssetId::from_raw(1);
    let source = |video: Option<VideoComponent>, audio: Vec<AudioComponent>| ClipSource::Asset {
        asset,
        video,
        audio,
    };
    let clip = |s| asset_clip(0, rt(0, 1), rt(1, 1), s);

    assert_eq!(
        check_clip(&doc, clip(source(None, vec![]))),
        Err(DocumentError::EmptyAssetComponents { layer_id: 0 })
    );
    let mut wrong_kind = VideoComponent::ordinal(0);
    wrong_kind.stream.kind = StreamKind::Audio;
    assert_eq!(
        check_clip(&doc, clip(source(Some(wrong_kind), vec![]))),
        Err(DocumentError::VideoComponentKindMismatch { layer_id: 0 })
    );
    assert_eq!(
        check_clip(&doc, clip(source(Some(VideoComponent::ordinal(2)), vec![]))),
        Err(DocumentError::UnsupportedVideoStreamOrdinal { layer_id: 0, ordinal: 2 })
    );
    let mut video_as_audio = AudioComponent::ordinal(0);
    video_as_audio.stream = StreamSelector { kind: StreamKind::Video, ordinal: 0 };
    assert_eq!(
        check_clip(&doc, clip(source(None, vec![AudioComponent::ordinal(1), video_as_audio]))),
        Err(DocumentError::AudioComponentKindMismatch { layer_id: 0, index: 1 })
    );
    assert_eq!(
        check_clip(
            &doc,
            clip(source(
                None,
                vec![AudioComponent::ordinal(3), AudioComponent::ordinal(4), AudioComponent::ordinal(3)]
            ))
        ),
        Err(DocumentError::DuplicateAudioStreamOrdinal {
            layer_id: 0,
            ordinal: 3,
            first_index: 0,
            second_index: 2
        })
    );
    let mut loud = AudioComponent::ordinal(0);
    loud.gain = c(-0.5);
    assert_eq!(
        check_clip(&doc, clip(source(None, vec![AudioComponent::ordinal(1), loud]))),
        Err(DocumentError::ValueOutOfRange { path: "layer0.source.audio[1].gain".to_string() })
    );
    assert_eq!(
        check_clip(&doc, clip(source(None, vec![AudioComponent::ordinal(0), AudioComponent::ordinal(1)]))),
        Ok(())
    );
}

#[test]
fn plugin_source_needs_an_id_and_finite_params() {
    let doc = doc_with_layers(1);
    let empty = ClipSource::Plugin {
        plugin_id: String::new(),
        effect_version: 1,
        params: ParamMap::new(),
        extra: Default::default(),
    };
    assert_eq!(
        check_clip(&doc, asset_clip(0, rt(0, 1), rt(1, 1), empty)),
        Err(DocumentError::EmptySourcePluginId { layer_id: 0 })
    );
    let mut params = ParamMap::new();
    params.insert("speed".to_string(), c(f64::INFINITY));
    let plugin = ClipSource::Plugin {
        plugin_id: "noise".to_string(),
        effect_version: 1,
        params,
        extra: Default::default(),
    };
    assert_eq!(
        check_clip(&doc, asset_clip(0, rt(0, 1), rt(1, 1), plugin)),
        Err(DocumentError::NonFiniteValue { path: "layer0.source.speed".to_string() })
    );
}

// --- envelopes, groups, parents ---

#[test]
fn unknown_and_duplicate_layers_are_refused() {
    let doc = doc_with_layers(2);
    let mut seen = HashSet::new();
    let mut parents = HashMap::new();
    assert_eq!(
        validate_item(&doc, &video_clip(5), &mut seen, &mut parents),
        Err(DocumentError::UnknownLayerId { id: 5 })
    );
    let group = TrackItem::Group(Group {
        envelope: ItemEnvelope::new(LayerId::from_raw(0)),
        children: vec![video_clip(1), video_clip(1)],
    });
    let mut seen = HashSet::new();
    assert_eq!(
        validate_item(&doc, &group, &mut seen, &mut parents),
        Err(DocumentError::DuplicateLayerId { id: 1 })
    );
}

#[test]
fn opacity_outside_unit_interval_is_refused() {
    let doc = doc_with_layers(1);
    let mut clip = asset_clip(0, rt(0, 1), rt(1, 1), ClipSource::asset_video_only(AssetId::from_raw(1)));
    clip.envelope.opacity = DocParam::Keyframes(KeyframeTrack {
        keys: vec![
            Keyframe { t: rt(0, 1), value: DocValue::F64(f(0.5)) },
            Keyframe { t: rt(1, 1), value: DocValue::F64(f(1.5)) },
        ],
    });
    assert_eq!(
        check_clip(&doc, clip),
        Err(DocumentError::ValueOutOfRange { path: "layer0.opacity".to_string() })
    );
}

#[test]
fn look_at_is_allowed_only_for_rotation() {
    let doc = doc_with_layers(2);
    let mut clip = asset_clip(0, rt(0, 1), rt(1, 1), ClipSource::asset_video_only(AssetId::from_raw(1)));
    clip.envelope.transform.rotation =
        DocParam::LookAt { target: LayerId::from_raw(1), axis: LookAtAxis::PositiveX };
    assert_eq!(check_clip(&doc, clip.clone()), Ok(()));
    clip.envelope.transform.rotation =
        DocParam::LookAt { target: LayerId::from_raw(9), axis: LookAtAxis::PositiveX };
    assert_eq!(check_clip(&doc, clip.clone()), Err(DocumentError::UnknownLayerId { id: 9 }));
    clip.envelope.transform.scale =
        DocParam::LookAt { target: LayerId::from_raw(1), axis: LookAtAxis::PositiveY };
    assert_eq!(
        check_clip(&doc, clip),
        Err(DocumentError::ParamKindMismatch { path: "layer0.scale".to_string() })
    );
}

#[test]
fn dangling_effect_use_is_refused() {
    let mut doc = doc_with_layers(1);
    let mut clip = asset_clip(0, rt(0, 1), rt(1, 1), ClipSource::asset_video_only(AssetId::from_raw(1)));
    clip.envelope.effects.push(EffectUse {
        id: EffectId::from_raw(40),
        definition_id: EffectDefinitionId::from_raw(41),
    });
    assert_eq!(
        check_clip(&doc, clip.clone()),
        Err(DocumentError::DanglingEffectDefinition { layer_id: 0, id: 40, definition_id: 41 })
    );
    doc.effect_definitions.push(EffectDefinition::new(
        EffectDefinitionId::from_raw(41),
        "blur".to_string(),
        1,
        true,
        ParamMap::new(),
        Default::default(),
    ));
    assert_eq!(check_clip(&doc, clip), Ok(()));
}

#[test]
fn parent_cycles_are_found() {
    let mut parents = HashMap::new();
    parents.insert(1u64, 2u64);
    parents.insert(2, 3);
    assert_eq!(detect_parent_cycles(&parents), Ok(()));
    parents.insert(3, 1);
    match detect_parent_cycles(&parents) {
        Err(DocumentError::ParentCycle { layer_id }) => assert!([1, 2, 3].contains(&layer_id)),
        other => panic!("expected a parent cycle, got {other:?}"),
    }
    let mut own = HashMap::new();
    own.insert(4u64, 4u64);
    assert_eq!(detect_parent_cycles(&own), Err(DocumentError::ParentCycle { layer_id: 4 }));
}

#[test]
fn document_with_parent_cycle_is_refused() {
    let mut doc = doc_with_layers(2);
    let mut a = asset_clip(0, rt(0, 1), rt(1, 1), ClipSource::asset_video_only(AssetId::from_raw(1)));
    let mut b = asset_clip(1, rt(0, 1), rt(1, 1), ClipSource::asset_video_only(AssetId::from_raw(1)));
    a.envelope.transform.parent = Some(LayerId::from_raw(1));
    b.envelope.transform.parent = Some(LayerId::from_raw(0));
    let tid = motolii_doc::ids::TrackId::from_raw(0);
    doc.tracks.push(Track { id: tid, items: vec![TrackItem::Clip(a), TrackItem::Clip(b)] });
    assert!(matches!(doc.validate_structure(), Err(DocumentError::ParentCycle { .. })));
}

#[test]
fn unregistered_track_is_refused() {
    let mut doc = doc_with_layers(1);
    let tid = motolii_doc::ids::TrackId::from_raw(7);
    doc.tracks.push(Track { id: tid, items: vec![video_clip(0)] });
    assert_eq!(doc.validate_structure(), Err(DocumentError::UnknownTrackId { id: 7 }));
}

#[test]
fn camera_height_must_be_positive() {
    let mut doc = doc_with_layers(0);
    assert_eq!(doc.validate_structure(), Ok(()));
    doc.composition.camera = motolii_doc::schema::CompCameraDoc::PlanarOrthographic {
        center: DocParam::const_vec2([f(0.0), f(0.0)]),
        roll_radians: c(0.0),
        height: c(0.0),
    };
    assert_eq!(
        doc.validate_structure(),
        Err(DocumentError::ValueOutOfRange { path: "composition.camera.height".to_string() })
    );
}

#[test]
fn effect_uses_are_found_in_nested_groups() {
    let mut doc = doc_with_layers(3);
    let mut inner = asset_clip(2, rt(0, 1), rt(1, 1), ClipSource::asset_video_only(AssetId::from_raw(1)));
    let tid = motolii_doc::ids::TrackId::from_raw(0);
    doc.tracks.push(Track {
        id: tid,
        items: vec![TrackItem::Group(Group {
            envelope: ItemEnvelope::new(LayerId::from_raw(0)),
            children: vec![video_clip(1), TrackItem::Clip(inner.clone())],
        })],
    });
    assert!(!document_has_any_effect_use(&doc));
    inner.envelope.effects.push(EffectUse {
        id: EffectId::from_raw(1),
        definition_id: EffectDefinitionId::from_raw(2),
    });
    if let TrackItem::Group(g) = &mut doc.tracks[0].items[0] {
        g.children[1] = TrackItem::Clip(inner);
    }
    assert!(document_has_any_effect_use(&doc));
}

// --- registries, parameter maps, effects ---

#[test]
fn registries_hand_out_fresh_ids() {
    let mut doc = Document::new_current();
    let a = doc.layers.allocate("a").unwrap();
    let b = doc.layers.allocate("b").unwrap();
    assert_ne!(a, b);
    assert!(doc.layers.contains(a) && doc.layers.contains(b));
    assert!(!doc.layers.contains(LayerId::from_raw(99)));
}

#[test]
fn param_map_keeps_names_in_order_and_replaces() {
    let mut m = ParamMap::new();
    assert!(m.insert("zeta".to_string(), c(1.0)).is_none());
    assert!(m.insert("alpha".to_string(), c(2.0)).is_none());
    assert!(m.insert("mid".to_string(), c(3.0)).is_none());
    let old = m.insert("alpha".to_string(), c(4.0)).unwrap();
    assert_eq!(old, c(2.0));
    let names: Vec<&str> = (0..m.len()).map(|i| m.entry(i).name.as_str()).collect();
    assert_eq!(names, vec!["alpha", "mid", "zeta"]);
    assert_eq!(m.get("alpha"), Some(&c(4.0)));
    assert_eq!(m.get("missing"), None);
}

#[test]
fn effect_instance_round_trips_through_use_and_definition() {
    let mut params = ParamMap::new();
    params.insert("radius".to_string(), c(2.0));
    let instance = EffectInstance {
        id: EffectId::from_raw(5),
        definition_id: EffectDefinitionId::from_raw(6),
        plugin_id: "blur".to_string(),
        effect_version: 3,
        enabled: false,
        params,
        extra: Default::default(),
    };
    let (use_, def) = instance.clone().into_use_and_definition();
    assert_eq!(use_.id, EffectId::from_raw(5));
    assert_eq!(def.id, EffectDefinitionId::from_raw(6));
    let back = EffectInstance::from_use_and_definition(&use_, &def);
    assert_eq!(back, instance);
    let copy = def.deep_copy(EffectDefinitionId::from_raw(9));
    assert_eq!(copy.id, EffectDefinitionId::from_raw(9));
    assert_eq!(copy.params, def.params);
    assert_eq!(copy.plugin_id, "blur");
}

#[test]
fn newer_reader_needed_for_audio_or_non_default_video() {
    assert!(!asset_components_require_newer_reader(&Some(VideoComponent::ordinal(0)), &[]));
    assert!(asset_components_require_newer_reader(&None, &[]));
    assert!(asset_components_require_newer_reader(&Some(VideoComponent::ordinal(1)), &[]));
    assert!(asset_components_require_newer_reader(
        &Some(VideoComponent::ordinal(0)),
        &[AudioComponent::ordinal(0)]
    ));
}

// --- stored clip source shapes ---

fn keys(list: &[&str]) -> Vec<String> {
    list.iter().map(|k| k.to_string()).collect()
}

#[test]
fn clip_source_shapes() {
    assert_eq!(clip_source_shape("asset", &keys(&["asset", "audio"])), Ok(ClipSourceKind::Asset));
    assert_eq!(
        clip_source_shape("asset", &keys(&["asset", "recipe", "modifiers"])),
        Err(ClipSourceShapeError::UnknownField { field: "recipe".to_string() })
    );
    assert_eq!(clip_source_shape("vector", &keys(&["recipe"])), Ok(ClipSourceKind::Vector));
    assert_eq!(
        clip_source_shape("vector", &keys(&["recipe", "audio"])),
        Err(ClipSourceShapeError::UnknownField { field: "audio".to_string() })
    );
    assert_eq!(
        clip_source_shape("plugin", &keys(&["plugin_id", "future_field"])),
        Ok(ClipSourceKind::Plugin)
    );
    assert_eq!(
        clip_source_shape("plugin", &keys(&["plugin_id", "video"])),
        Err(ClipSourceShapeError::PluginWithComponents)
    );
    assert_eq!(
        clip_source_shape("image", &keys(&[])),
        Err(ClipSourceShapeError::UnknownVariant { tag: "image".to_string() })
    );
}
