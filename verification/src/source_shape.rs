//! The shape of a stored clip source object: which variant its `source` tag
//! names, and which fields each variant may carry. Asset and vector sources
//! refuse unknown fields; plugin sources keep unknown fields (for newer
//! formats) but may not carry the asset-only `video` and `audio` components.

use crate::order::str_eq;
use vstd::prelude::*;
use vstd::string::*;

verus! {

/// The variant of a clip source.
#[derive(Debug, Clone, Copy, PartialEq, Eq, Structural)]
pub enum ClipSourceKind {
    Asset,
    Plugin,
    Vector,
}

/// Why a stored clip source object is refused.
#[derive(Debug, Clone, PartialEq)]
pub enum ClipSourceShapeError {
    /// The tag names no variant.
    UnknownVariant { tag: String },
    /// A field the variant does not have.
    UnknownField { field: String },
    /// A plugin source with `video` or `audio` components.
    PluginWithComponents,
}

/// The shape error as sequences.
pub enum ClipSourceShapeErrorView {
    UnknownVariant { tag: Seq<char> },
    UnknownField { field: Seq<char> },
    PluginWithComponents,
}

impl View for ClipSourceShapeError {
    type V = ClipSourceShapeErrorView;

    open spec fn view(&self) -> ClipSourceShapeErrorView {
        match self {
            ClipSourceShapeError::UnknownVariant { tag } => ClipSourceShapeErrorView::UnknownVariant {
                tag: tag@,
            },
            ClipSourceShapeError::UnknownField { field } => ClipSourceShapeErrorView::UnknownField {
                field: field@,
            },
            ClipSourceShapeError::PluginWithComponents =>
                ClipSourceShapeErrorView::PluginWithComponents,
        }
    }
}

/// The texts of a list of names.
pub open spec fn names_view(names: Seq<&str>) -> Seq<Seq<char>> {
    names.map_values(|n: &str| n@)
}

/// The texts of a list of keys.
pub open spec fn keys_view(keys: Seq<String>) -> Seq<Seq<char>> {
    keys.map_values(|k: String| k@)
}

/// The first key, in the given order, that is not allowed.
pub open spec fn first_unknown(keys: Seq<Seq<char>>, allowed: Seq<Seq<char>>, from: int) -> Option<
    int,
>
    decreases keys.len() - from,
{
    if from >= keys.len() || from < 0 {
        None
    } else if !allowed.contains(keys[from]) {
        Some(from)
    } else {
        first_unknown(keys, allowed, from + 1)
    }
}

/// The first unknown key lies in range and is indeed not allowed.
pub proof fn lemma_first_unknown_found(keys: Seq<Seq<char>>, allowed: Seq<Seq<char>>, from: int)
    requires
        0 <= from,
        first_unknown(keys, allowed, from) is Some,
    ensures
        from <= first_unknown(keys, allowed, from)->0 < keys.len(),
        !allowed.contains(keys[first_unknown(keys, allowed, from)->0]),
    decreases keys.len() - from,
{
    if from < keys.len() && allowed.contains(keys[from]) {
        lemma_first_unknown_found(keys, allowed, from + 1);
    }
}

/// Whether `name` is one of `allowed`.
fn is_allowed(name: &str, allowed: &Vec<&str>) -> (r: bool)
    ensures
        r == names_view(allowed@).contains(name@),
{
    let mut i: usize = 0;
    while i < allowed.len()
        invariant
            i <= allowed@.len(),
            forall|j: int| 0 <= j < i ==> names_view(allowed@)[j] != name@,
        decreases allowed.len() - i,
    {
        if str_eq(allowed[i], name) {
            assert(names_view(allowed@)[i as int] == name@);
            return true;
        }
        i = i + 1;
    }
    false
}

/// Refuses the first key, in the given order, that is not one of `allowed`;
/// gives back that key.
pub fn reject_unknown_clip_source_fields(keys: &Vec<String>, allowed: &Vec<&str>) -> (r: Result<
    (),
    String,
>)
    ensures
        match first_unknown(keys_view(keys@), names_view(allowed@), 0) {
            None => r is Ok,
            Some(i) => r matches Err(k) && k@ == keys@[i]@,
        },
{
    let mut i: usize = 0;
    while i < keys.len()
        invariant
            i <= keys@.len(),
            first_unknown(keys_view(keys@), names_view(allowed@), 0) == first_unknown(
                keys_view(keys@),
                names_view(allowed@),
                i as int,
            ),
        decreases keys.len() - i,
    {
        if !is_allowed(keys[i].as_str(), allowed) {
            return Err(keys[i].clone());
        }
        i = i + 1;
    }
    Ok(())
}

/// The fields of an asset source.
pub fn asset_fields() -> (v: Vec<&'static str>)
    ensures
        names_view(v@) == seq!["asset"@, "video"@, "audio"@],
{
    let v = vec!["asset", "video", "audio"];
    assert(names_view(v@) =~= seq!["asset"@, "video"@, "audio"@]);
    v
}

/// The fields of a vector source.
pub fn vector_fields() -> (v: Vec<&'static str>)
    ensures
        names_view(v@) == seq!["recipe"@],
{
    let v = vec!["recipe"];
    assert(names_view(v@) =~= seq!["recipe"@]);
    v
}

/// The decision on a stored clip source object with tag `tag` and the other
/// fields `keys`, in their stored order.
pub open spec fn shape_decision(tag: Seq<char>, keys: Seq<Seq<char>>) -> Result<
    ClipSourceKind,
    ClipSourceShapeErrorView,
> {
    if tag == "asset"@ {
        match first_unknown(keys, seq!["asset"@, "video"@, "audio"@], 0) {
            None => Ok(ClipSourceKind::Asset),
            Some(i) => Err(ClipSourceShapeErrorView::UnknownField { field: keys[i] }),
        }
    } else if tag == "vector"@ {
        match first_unknown(keys, seq!["recipe"@], 0) {
            None => Ok(ClipSourceKind::Vector),
            Some(i) => Err(ClipSourceShapeErrorView::UnknownField { field: keys[i] }),
        }
    } else if tag == "plugin"@ {
        if keys.contains("audio"@) || keys.contains("video"@) {
            Err(ClipSourceShapeErrorView::PluginWithComponents)
        } else {
            Ok(ClipSourceKind::Plugin)
        }
    } else {
        Err(ClipSourceShapeErrorView::UnknownVariant { tag })
    }
}

/// The view of a decision.
pub open spec fn decision_view(r: Result<ClipSourceKind, ClipSourceShapeError>) -> Result<
    ClipSourceKind,
    ClipSourceShapeErrorView,
> {
    match r {
        Ok(k) => Ok(k),
        Err(e) => Err(e@),
    }
}

/// Decides which variant a stored clip source object is, or why it is
/// refused.
pub fn clip_source_shape(tag: &str, keys: &Vec<String>) -> (r: Result<
    ClipSourceKind,
    ClipSourceShapeError,
>)
    ensures
        decision_view(r) == shape_decision(tag@, keys_view(keys@)),
{
    proof {
        reveal_strlit("plugin");
        reveal_strlit("asset");
        reveal_strlit("vector");
        reveal_strlit("audio");
        reveal_strlit("video");
    }
    if str_eq(tag, "asset") {
        let allowed = asset_fields();
        match reject_unknown_clip_source_fields(keys, &allowed) {
            Ok(()) => Ok(ClipSourceKind::Asset),
            Err(field) => {
                proof {
                    lemma_first_unknown_found(keys_view(keys@), names_view(allowed@), 0);
                    let i = first_unknown(keys_view(keys@), names_view(allowed@), 0)->0;
                    assert(keys_view(keys@)[i] == keys@[i]@);
                }
                Err(ClipSourceShapeError::UnknownField { field })
            },
        }
    } else if str_eq(tag, "vector") {
        let allowed = vector_fields();
        match reject_unknown_clip_source_fields(keys, &allowed) {
            Ok(()) => Ok(ClipSourceKind::Vector),
            Err(field) => {
                proof {
                    lemma_first_unknown_found(keys_view(keys@), names_view(allowed@), 0);
                    let i = first_unknown(keys_view(keys@), names_view(allowed@), 0)->0;
                    assert(keys_view(keys@)[i] == keys@[i]@);
                }
                Err(ClipSourceShapeError::UnknownField { field })
            },
        }
    } else if str_eq(tag, "plugin") {
        proof {
            reveal_strlit("plugin");
            reveal_strlit("asset");
            reveal_strlit("vector");
        }
        let components = vec!["audio", "video"];
        let mut i: usize = 0;
        while i < keys.len()
            invariant
                i <= keys@.len(),
                names_view(components@) == seq!["audio"@, "video"@],
                shape_decision(tag@, keys_view(keys@)) == (if keys_view(keys@).contains("audio"@)
                    || keys_view(keys@).contains("video"@) {
                    Err(ClipSourceShapeErrorView::PluginWithComponents)
                } else {
                    Ok(ClipSourceKind::Plugin)
                }),
                forall|j: int|
                    0 <= j < i ==> keys_view(keys@)[j] != "audio"@ && keys_view(keys@)[j]
                        != "video"@,
            decreases keys.len() - i,
        {
            if is_allowed(keys[i].as_str(), &components) {
                proof {
                    assert(names_view(components@).contains(keys@[i as int]@));
                    assert(keys_view(keys@)[i as int] == keys@[i as int]@);
                    if keys@[i as int]@ == "audio"@ {
                        assert(keys_view(keys@).contains("audio"@));
                    } else {
                        assert(keys_view(keys@).contains("video"@));
                    }
                }
                return Err(ClipSourceShapeError::PluginWithComponents);
            }
            i = i + 1;
        }
        proof {
            if keys_view(keys@).contains("audio"@) {
                let j = choose|j: int| 0 <= j < keys_view(keys@).len() && keys_view(keys@)[j] == "audio"@;
                assert(keys_view(keys@)[j] != "audio"@);
            }
            if keys_view(keys@).contains("video"@) {
                let j = choose|j: int| 0 <= j < keys_view(keys@).len() && keys_view(keys@)[j] == "video"@;
                assert(keys_view(keys@)[j] != "video"@);
            }
        }
        Ok(ClipSourceKind::Plugin)
    } else {
        Err(ClipSourceShapeError::UnknownVariant { tag: String::from_str(tag) })
    }
}

/// When every key from `from` on is allowed, there is no unknown key.
proof fn lemma_all_allowed_none_unknown(keys: Seq<Seq<char>>, allowed: Seq<Seq<char>>, from: int)
    requires
        0 <= from,
        forall|i: int| from <= i < keys.len() ==> allowed.contains(#[trigger] keys[i]),
    ensures
        first_unknown(keys, allowed, from) is None,
    decreases keys.len() - from,
{
    if from < keys.len() {
        assert(allowed.contains(keys[from]));
        lemma_all_allowed_none_unknown(keys, allowed, from + 1);
    }
}

/// A stored object tagged `asset` whose other keys are each `asset`, `video`
/// or `audio` (in any order, any repeats) is an asset source; a refused
/// asset object names one of its keys that is none of these three.
pub proof fn lemma_asset_source_fields(keys: Seq<Seq<char>>)
    ensures
        (forall|i: int|
            0 <= i < keys.len() ==> #[trigger] keys[i] == "asset"@ || keys[i] == "video"@ || keys[i]
                == "audio"@) ==> shape_decision("asset"@, keys) == Ok::<
            ClipSourceKind,
            ClipSourceShapeErrorView,
        >(ClipSourceKind::Asset),
        shape_decision("asset"@, keys) matches Err(ClipSourceShapeErrorView::UnknownField { field })
            ==> keys.contains(field) && field != "asset"@ && field != "video"@ && field
            != "audio"@,
        shape_decision("asset"@, keys) is Ok || shape_decision("asset"@, keys) matches Err(
            ClipSourceShapeErrorView::UnknownField { .. },
        ),
{
    let allowed = seq!["asset"@, "video"@, "audio"@];
    if forall|i: int|
        0 <= i < keys.len() ==> #[trigger] keys[i] == "asset"@ || keys[i] == "video"@ || keys[i]
            == "audio"@ {
        assert forall|i: int| 0 <= i < keys.len() implies allowed.contains(#[trigger] keys[i]) by {
            if keys[i] == "asset"@ {
                assert(allowed[0] == keys[i]);
            } else if keys[i] == "video"@ {
                assert(allowed[1] == keys[i]);
            } else {
                assert(allowed[2] == keys[i]);
            }
        }
        lemma_all_allowed_none_unknown(keys, allowed, 0);
    }
    if first_unknown(keys, allowed, 0) is Some {
        lemma_first_unknown_found(keys, allowed, 0);
        let i = first_unknown(keys, allowed, 0)->0;
        assert(keys.contains(keys[i]));
        assert(allowed[0] == "asset"@ && allowed[1] == "video"@ && allowed[2] == "audio"@);
    }
}

/// A stored object tagged `vector` whose other keys are each `recipe` is a
/// vector source; a refused vector object names one of its keys other than
/// `recipe`.
pub proof fn lemma_vector_source_fields(keys: Seq<Seq<char>>)
    ensures
        (forall|i: int| 0 <= i < keys.len() ==> #[trigger] keys[i] == "recipe"@) ==> shape_decision(
            "vector"@,
            keys,
        ) == Ok::<ClipSourceKind, ClipSourceShapeErrorView>(ClipSourceKind::Vector),
        shape_decision("vector"@, keys) matches Err(ClipSourceShapeErrorView::UnknownField { field })
            ==> keys.contains(field) && field != "recipe"@,
        shape_decision("vector"@, keys) is Ok || shape_decision("vector"@, keys) matches Err(
            ClipSourceShapeErrorView::UnknownField { .. },
        ),
{
    reveal_strlit("vector");
    reveal_strlit("asset");
    let allowed = seq!["recipe"@];
    assert("vector"@[0] != "asset"@[0]);
    if forall|i: int| 0 <= i < keys.len() ==> #[trigger] keys[i] == "recipe"@ {
        assert forall|i: int| 0 <= i < keys.len() implies allowed.contains(#[trigger] keys[i]) by {
            assert(allowed[0] == keys[i]);
        }
        lemma_all_allowed_none_unknown(keys, allowed, 0);
    }
    if first_unknown(keys, allowed, 0) is Some {
        lemma_first_unknown_found(keys, allowed, 0);
        let i = first_unknown(keys, allowed, 0)->0;
        assert(keys.contains(keys[i]));
        assert(allowed[0] == "recipe"@);
    }
}

/// A stored object tagged `plugin` is a plugin source exactly when none of
/// its other keys is `video` or `audio`; it keeps every other key.
pub proof fn lemma_plugin_source_fields(keys: Seq<Seq<char>>)
    ensures
        shape_decision("plugin"@, keys) == (if keys.contains("audio"@) || keys.contains("video"@) {
            Err(ClipSourceShapeErrorView::PluginWithComponents)
        } else {
            Ok(ClipSourceKind::Plugin)
        }),
{
    reveal_strlit("plugin");
    reveal_strlit("asset");
    reveal_strlit("vector");
    assert("plugin"@[0] != "asset"@[0]);
    assert("plugin"@[0] != "vector"@[0]);
}

/// A tag other than `asset`, `vector` and `plugin` is refused as naming no
/// variant, whatever the keys.
pub proof fn lemma_unknown_tag_refused(tag: Seq<char>, keys: Seq<Seq<char>>)
    requires
        tag != "asset"@,
        tag != "vector"@,
        tag != "plugin"@,
    ensures
        shape_decision(tag, keys) == Err::<ClipSourceKind, ClipSourceShapeErrorView>(
            ClipSourceShapeErrorView::UnknownVariant { tag },
        ),
{
}

} // verus!
