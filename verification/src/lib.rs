//! Document model of a motion-graphics editor: composition settings, tracks,
//! clips and groups, vector recipes with their path operators, and the
//! structural checks run over a document before it is stored.

pub mod float;
pub mod ids;
pub mod time;
pub mod text;
pub mod order;
pub mod param;
pub mod param_map;
pub mod expect;
pub mod arith;
pub mod json;
pub mod schema;
pub mod document;
pub mod check_param;
pub mod check_items;
pub mod cycles;
pub mod asset_uses;
pub mod source_shape;
pub mod check_doc;
pub mod check_assets;
pub mod laws;
