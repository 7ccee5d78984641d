//! The inventory of asset references.

use std::collections::BTreeSet;

use motolii_doc::asset_uses::AllowedAssetTypes;
use motolii_doc::document::{AssetEntry, Document, DocumentError};
use motolii_doc::float::Float64;
use motolii_doc::ids::{AssetId, EffectDefinitionId, LayerId, TrackId};
use motolii_doc::param::{DocParam, DocValue};
use motolii_doc::param_map::ParamMap;
use motolii_doc::schema::{
    Clip, ClipSource, CompCameraDoc, EffectDefinition, Group, ItemEnvelope, PathOp, StandardShape,
    Track, TrackItem, VectorContent, VectorRecipe,
};
use motolii_doc::time::{RationalTime, TimeMap};

fn f(v: f64) -> Float64 {
    Float64::from_bits(v.to_bits())
}

fn asset_ref(id: AssetId) -> DocParam {
    DocParam::Const(DocValue::AssetRef(id))
}

fn params_with(name: &str, p: DocParam) -> ParamMap {
    let mut m = ParamMap::new();
    m.insert(name.to_string(), p);
    m
}

fn clip(layer: u64, source: ClipSource) -> TrackItem {
    TrackItem::Clip(Clip {
        envelope: ItemEnvelope::new(LayerId::from_raw(layer)),
        start: RationalTime::zero(),
        duration: RationalTime::try_new(1, 1).unwrap(),
        time_map: Default::default(),
        source,
    })
}

#[test]
fn asset_use_inventory_covers_camera_orphan_and_recursive_group() {
    let asset = AssetId::from_raw(10);
    let mut doc = Document::new_current();
    doc.composition.camera = CompCameraDoc::PlanarOrthographic {
        center: asset_ref(asset),
        roll_radians: DocParam::const_f64(f(0.0)),
        height: DocParam::const_f64(f(1.0)),
    };

    let mut group_envelope = ItemEnvelope::new(LayerId::from_raw(1));
    group_envelope.opacity = asset_ref(asset);
    doc.tracks.push(Track {
        id: TrackId::from_raw(0),
        items: vec![TrackItem::Group(Group {
            envelope: group_envelope,
            children: vec![clip(
                2,
                ClipSource::Plugin {
                    plugin_id: "test.source".into(),
                    effect_version: 1,
                    params: params_with("texture", asset_ref(asset)),
                    extra: Default::default(),
                },
            )],
        })],
    });
    doc.effect_definitions.push(EffectDefinition::new(
        EffectDefinitionId::from_raw(0),
        "test.effect".to_string(),
        1,
        true,
        params_with("texture", asset_ref(asset)),
        Default::default(),
    ));

    let uses = doc.asset_uses();
    let paths = uses.iter().map(|asset_use| asset_use.path.as_str()).collect::<BTreeSet<_>>();
    assert_eq!(
        paths,
        BTreeSet::from([
            "composition.camera.center",
            "effect_definitions[0].texture",
            "layer1.opacity",
            "layer2.source.texture",
        ])
    );
}

#[test]
fn vector_sources_require_svg_and_font_types() {
    let content = VectorContent::Group {
        children: vec![
            VectorContent::SvgAsset { asset: AssetId::from_raw(3) },
            VectorContent::TextPath { text: "hi".to_string(), font_asset: AssetId::from_raw(4) },
            VectorContent::StandardShape {
                shape: StandardShape::Ellipse {
                    width: DocParam::const_f64(f(1.0)),
                    height: DocParam::Vec2Axes {
                        x: Box::new(asset_ref(AssetId::from_raw(5))),
                        y: Box::new(DocParam::const_f64(f(1.0))),
                    },
                },
            },
        ],
    };
    let mut doc = Document::new_current();
    doc.tracks.push(Track {
        id: TrackId::from_raw(0),
        items: vec![clip(
            7,
            ClipSource::Vector {
                recipe: VectorRecipe {
                    content,
                    modifiers: vec![PathOp::RoundCorners { radius: asset_ref(AssetId::from_raw(6)) }],
                },
            },
        )],
    });
    let uses = doc.asset_uses();
    let listed: Vec<(u64, String, AllowedAssetTypes)> =
        uses.iter().map(|u| (u.id.get(), u.path.clone(), u.allowed_types)).collect();
    assert_eq!(
        listed,
        vec![
            (3, "layer7.recipe.children[0].asset".to_string(), AllowedAssetTypes::SvgImage),
            (4, "layer7.recipe.children[1].font_asset".to_string(), AllowedAssetTypes::Font),
            (5, "layer7.recipe.children[2].height.x".to_string(), AllowedAssetTypes::Any),
            (6, "layer7.recipe.modifiers[0].radius".to_string(), AllowedAssetTypes::Any),
        ]
    );
}

#[test]
fn asset_source_and_audio_gains_are_listed() {
    let mut doc = Document::new_current();
    let mut audio = motolii_doc::schema::AudioComponent::ordinal(1);
    audio.gain = asset_ref(AssetId::from_raw(9));
    doc.tracks.push(Track {
        id: TrackId::from_raw(0),
        items: vec![clip(
            12,
            ClipSource::Asset { asset: AssetId::from_raw(8), video: None, audio: vec![audio] },
        )],
    });
    let uses = doc.asset_uses();
    let listed: Vec<(u64, String)> = uses.iter().map(|u| (u.id.get(), u.path.clone())).collect();
    assert_eq!(
        listed,
        vec![
            (8, "layer12.source.asset".to_string()),
            (9, "layer12.source.audio[0].gain".to_string()),
        ]
    );
}

#[test]
fn allowed_types_accept_exactly_their_media_types() {
    assert!(AllowedAssetTypes::Any.allows("image/png"));
    assert!(AllowedAssetTypes::SvgImage.allows("image/svg+xml"));
    assert!(!AllowedAssetTypes::SvgImage.allows("image/png"));
    for t in ["font/ttf", "font/otf", "font/woff", "font/woff2"] {
        assert!(AllowedAssetTypes::Font.allows(t));
    }
    assert!(!AllowedAssetTypes::Font.allows("font/woff3"));
}

#[test]
fn asset_use_inventory_rejects_dangling_orphan_effect_reference() {
    let mut doc = Document::new_current();
    let definition_id = EffectDefinitionId::from_raw(doc.next_stable_id.allocate().unwrap());
    doc.effect_definitions.push(EffectDefinition::new(
        definition_id,
        "test.effect".to_string(),
        1,
        true,
        params_with("texture", asset_ref(AssetId::from_raw(99))),
        Default::default(),
    ));

    assert_eq!(doc.validate(), Err(DocumentError::UnknownAssetId { id: 99 }));
}

fn svg_doc(media_type: &str) -> Document {
    let mut doc = Document::new_current();
    let layer = doc.layers.allocate("shape").unwrap();
    let track = doc.track_ids.allocate("main").unwrap();
    doc.assets.push(AssetEntry { id: AssetId::from_raw(5), media_type: media_type.to_string() });
    let recipe = VectorRecipe {
        content: VectorContent::SvgAsset { asset: AssetId::from_raw(5) },
        modifiers: Vec::new(),
    };
    doc.tracks.push(Track {
        id: track,
        items: vec![clip(layer.get(), ClipSource::Vector { recipe })],
    });
    doc
}

#[test]
fn registered_asset_of_an_accepted_type_passes() {
    let doc = svg_doc("image/svg+xml");
    assert_eq!(doc.validate_structure(), Ok(()));
    assert_eq!(doc.validate(), Ok(()));
}

#[test]
fn asset_of_a_refused_type_is_named_with_its_path() {
    let doc = svg_doc("image/png");
    assert_eq!(doc.validate_structure(), Ok(()));
    assert_eq!(
        doc.validate(),
        Err(DocumentError::DisallowedAssetType { id: 5, path: "layer0.recipe.asset".to_string() })
    );
}

#[test]
fn structural_failures_come_before_asset_checks() {
    let mut doc = svg_doc("image/png");
    doc.tracks[0].id = TrackId::from_raw(7);
    assert_eq!(doc.validate(), Err(DocumentError::UnknownTrackId { id: 7 }));
}

#[test]
fn stable_ids_are_handed_out_in_increasing_order() {
    let mut doc = Document::new_current();
    let first = doc.next_stable_id.allocate().unwrap();
    let second = doc.next_stable_id.allocate().unwrap();
    assert_eq!(first, 0);
    assert_eq!(second, 1);
}
