//! The refusals of the path operator semantics table, checked through the
//! document's structural validation.

use motolii_doc::document::{Document, DocumentError};
use motolii_doc::float::Float64;
use motolii_doc::param::DocParam;
use motolii_doc::schema::{
    Clip, ClipSource, CompositeOrder, ItemEnvelope, LineJoin, PathOp, PointType, StandardShape,
    Track, TrackItem, Transform2D, TrimMode, VectorContent, VectorRecipe,
};
use motolii_doc::time::{RationalTime, TimeMap};

fn f(v: f64) -> Float64 {
    Float64::from_bits(v.to_bits())
}

fn c(v: f64) -> DocParam {
    DocParam::const_f64(f(v))
}

fn doc_with_modifiers(modifiers: Vec<PathOp>) -> Document {
    let mut doc = Document::new_current();
    let layer = doc.layers.allocate("a").unwrap();
    let tid = doc.track_ids.allocate("V1").unwrap();
    doc.tracks.push(Track {
        id: tid,
        items: vec![TrackItem::Clip(Clip {
            envelope: ItemEnvelope::new(layer),
            start: RationalTime::zero(),
            duration: RationalTime::try_new(5, 1).unwrap(),
            time_map: TimeMap::default(),
            source: ClipSource::Vector {
                recipe: VectorRecipe {
                    content: VectorContent::StandardShape {
                        shape: StandardShape::Rect { width: c(1.0), height: c(1.0) },
                    },
                    modifiers,
                },
            },
        })],
    });
    doc
}

fn twist(angle: f64, center: [f64; 2]) -> PathOp {
    PathOp::Twist { angle: c(angle), center: DocParam::const_vec2([f(center[0]), f(center[1])]) }
}

#[test]
fn pucker_bloat_amount_in_range_ok() {
    let doc = doc_with_modifiers(vec![PathOp::PuckerBloat { amount: c(1.0) }]);
    assert!(doc.validate_structure().is_ok());
    let doc = doc_with_modifiers(vec![PathOp::PuckerBloat { amount: c(-1.0) }]);
    assert!(doc.validate_structure().is_ok());
}

#[test]
fn pucker_bloat_amount_out_of_range_rejected() {
    let doc = doc_with_modifiers(vec![PathOp::PuckerBloat { amount: c(1.5) }]);
    assert!(matches!(doc.validate_structure(), Err(DocumentError::ValueOutOfRange { .. })));
    let doc = doc_with_modifiers(vec![PathOp::PuckerBloat { amount: c(-1.0001) }]);
    assert!(matches!(doc.validate_structure(), Err(DocumentError::ValueOutOfRange { .. })));
}

#[test]
fn zig_zag_negative_amount_rejected() {
    let doc = doc_with_modifiers(vec![PathOp::ZigZag {
        amount: c(-0.01),
        ridges: c(3.0),
        point_type: PointType::Corner,
    }]);
    assert!(matches!(doc.validate_structure(), Err(DocumentError::ValueOutOfRange { .. })));
}

#[test]
fn zig_zag_negative_ridges_rejected() {
    let doc = doc_with_modifiers(vec![PathOp::ZigZag {
        amount: c(0.05),
        ridges: c(-1.0),
        point_type: PointType::Smooth,
    }]);
    assert!(matches!(doc.validate_structure(), Err(DocumentError::ValueOutOfRange { .. })));
}

#[test]
fn round_corners_negative_radius_rejected() {
    let doc = doc_with_modifiers(vec![PathOp::RoundCorners { radius: c(-0.1) }]);
    assert!(matches!(doc.validate_structure(), Err(DocumentError::ValueOutOfRange { .. })));
}

#[test]
fn trim_start_end_out_of_range_rejected() {
    let doc = doc_with_modifiers(vec![PathOp::Trim {
        start: c(-0.1),
        end: c(1.0),
        offset: c(0.0),
        mode: TrimMode::Parallel,
    }]);
    assert!(matches!(doc.validate_structure(), Err(DocumentError::ValueOutOfRange { .. })));

    let doc = doc_with_modifiers(vec![PathOp::Trim {
        start: c(0.0),
        end: c(1.1),
        offset: c(0.0),
        mode: TrimMode::Sequential,
    }]);
    assert!(matches!(doc.validate_structure(), Err(DocumentError::ValueOutOfRange { .. })));
}

#[test]
fn offset_non_positive_miter_limit_rejected() {
    let doc = doc_with_modifiers(vec![PathOp::Offset {
        distance: c(0.05),
        line_join: LineJoin::Miter,
        miter_limit: f(0.0),
    }]);
    assert!(matches!(doc.validate_structure(), Err(DocumentError::ValueOutOfRange { .. })));
}

#[test]
fn offset_non_finite_miter_limit_rejected() {
    let doc = doc_with_modifiers(vec![PathOp::Offset {
        distance: c(0.05),
        line_join: LineJoin::Round,
        miter_limit: f(f64::NAN),
    }]);
    assert!(matches!(doc.validate_structure(), Err(DocumentError::NonFiniteValue { .. })));
}

#[test]
fn twist_valid_center_ok() {
    let doc = doc_with_modifiers(vec![twist(0.5, [0.1, -0.2])]);
    assert!(doc.validate_structure().is_ok());
}

#[test]
fn twist_non_finite_center_rejected() {
    let doc = doc_with_modifiers(vec![twist(0.5, [f64::NAN, 0.0])]);
    assert!(matches!(doc.validate_structure(), Err(DocumentError::NonFiniteValue { .. })));
}

fn repeater(copies: f64, composite: CompositeOrder, start_opacity: f64) -> PathOp {
    PathOp::Repeater {
        copies: c(copies),
        offset: c(0.0),
        transform: Transform2D::identity(),
        composite,
        start_opacity: c(start_opacity),
        end_opacity: c(1.0),
    }
}

#[test]
fn repeater_negative_copies_rejected() {
    let doc = doc_with_modifiers(vec![repeater(-1.0, CompositeOrder::Above, 1.0)]);
    assert!(matches!(doc.validate_structure(), Err(DocumentError::ValueOutOfRange { .. })));
}

#[test]
fn repeater_fractional_copies_rejected() {
    let doc = doc_with_modifiers(vec![repeater(2.5, CompositeOrder::Above, 1.0)]);
    assert!(matches!(doc.validate_structure(), Err(DocumentError::ValueOutOfRange { .. })));
}

#[test]
fn repeater_opacity_out_of_range_rejected() {
    let doc = doc_with_modifiers(vec![PathOp::Repeater {
        copies: c(2.0),
        offset: c(0.0),
        transform: Transform2D::identity(),
        composite: CompositeOrder::Below,
        start_opacity: c(1.2),
        end_opacity: c(1.0),
    }]);
    assert!(matches!(doc.validate_structure(), Err(DocumentError::ValueOutOfRange { .. })));
}

#[test]
fn repeater_whole_copies_accepted() {
    let doc = doc_with_modifiers(vec![repeater(4.0, CompositeOrder::Above, 0.5)]);
    assert_eq!(doc.validate_structure(), Ok(()));
}

#[test]
fn refused_value_names_its_path() {
    let doc = doc_with_modifiers(vec![
        PathOp::RoundCorners { radius: c(0.1) },
        PathOp::Trim { start: c(0.0), end: c(1.5), offset: c(0.0), mode: TrimMode::Parallel },
    ]);
    assert_eq!(
        doc.validate_structure(),
        Err(DocumentError::ValueOutOfRange { path: "layer0.recipe.modifiers[1].end".to_string() })
    );
}

#[test]
fn miter_limit_path_is_reported() {
    let doc = doc_with_modifiers(vec![PathOp::Offset {
        distance: c(0.05),
        line_join: LineJoin::Bevel,
        miter_limit: f(-2.0),
    }]);
    assert_eq!(
        doc.validate_structure(),
        Err(DocumentError::ValueOutOfRange {
            path: "layer0.recipe.modifiers[0].miter_limit".to_string()
        })
    );
}
