//! The JSON objects that plugin sources and effect definitions carry through
//! unread: fields of a newer format that this model keeps so that a save does
//! not drop them.

use vstd::prelude::*;

verus! {

/// `serde_json::Map`, carried opaquely.
#[verifier::external_type_specification]
#[verifier::external_body]
#[verifier::reject_recursive_types(K)]
#[verifier::reject_recursive_types(V)]
pub struct ExJsonMap<K, V>(serde_json::Map<K, V>);

/// `serde_json::Value`, carried opaquely.
#[verifier::external_type_specification]
#[verifier::external_body]
pub struct ExJsonValue(serde_json::Value);

/// A JSON object: field names to JSON values.
pub type JsonObject = serde_json::Map<String, serde_json::Value>;

/// `serde_json::Map::clone` for JSON objects clones the underlying ordered
/// map. The specification claims the copy is the same value as the original.
pub assume_specification[ <serde_json::Map<String, serde_json::Value> as Clone>::clone ](
    m: &serde_json::Map<String, serde_json::Value>,
) -> (r: serde_json::Map<String, serde_json::Value>)
    ensures
        r == *m,
;

} // verus!
