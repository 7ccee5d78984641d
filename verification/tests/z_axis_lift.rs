//! The depth of a layer: the identity transform sits on the z = 0 plane.

use motolii_doc::float::Float64;
use motolii_doc::param::{DocParam, DocValue};
use motolii_doc::schema::{is_default_layer_z, Transform2D};

fn as_const_f64(param: &DocParam) -> Option<f64> {
    match param {
        DocParam::Const(DocValue::F64(v)) => Some(f64::from_bits(v.to_bits())),
        _ => None,
    }
}

#[test]
fn the_identity_transform_sits_at_z_zero() {
    let t = Transform2D::identity();
    let z = as_const_f64(&t.z).expect("z is a constant f64 by default");
    assert_eq!(z, 0.0, "the default z is 0.0 (the z = 0 plane)");
}

#[test]
fn default_depth_is_recognised_including_negative_zero() {
    assert!(is_default_layer_z(&Transform2D::identity().z));
    assert!(is_default_layer_z(&DocParam::const_f64(Float64::from_bits((-0.0f64).to_bits()))));
    assert!(!is_default_layer_z(&DocParam::const_f64(Float64::from_bits((-3.5f64).to_bits()))));
    assert!(!is_default_layer_z(&DocParam::const_f64(Float64::from_bits(f64::NAN.to_bits()))));
}
