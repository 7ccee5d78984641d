//! The full check of a document before it is stored: the structural checks,
//! then every asset reference of the inventory must name a registered asset
//! of a media type its place accepts.

use crate::asset_uses::{document_uses, type_allowed, uses_view, AssetUse, AssetUseView};
use crate::check_doc::document_walk;
use crate::check_param::camera_result;
use crate::cycles::{has_parent_cycle, on_parent_cycle};
use crate::document::{
    and_then, first_asset, result_view, Document, DocumentError, DocumentErrorView,
};
use vstd::prelude::*;

verus! {

/// The check of one asset reference: the asset is registered (its first entry
/// counts) and has a media type the reference accepts.
pub open spec fn use_result(doc: Document, u: AssetUseView) -> Result<(), DocumentErrorView> {
    match first_asset(doc.assets@, u.id, 0) {
        None => Err(DocumentErrorView::UnknownAssetId { id: u.id.raw }),
        Some(i) => if type_allowed(u.allowed_types, doc.assets@[i].media_type@) {
            Ok(())
        } else {
            Err(DocumentErrorView::DisallowedAssetType { id: u.id.raw, path: u.path })
        },
    }
}

/// The first failing reference among the first `n` of `uses`.
pub open spec fn uses_result(doc: Document, uses: Seq<AssetUseView>, n: nat) -> Result<
    (),
    DocumentErrorView,
>
    decreases n,
{
    if n == 0 {
        Ok(())
    } else {
        and_then(uses_result(doc, uses, (n - 1) as nat), use_result(doc, uses[n - 1]))
    }
}

/// The structural checks pass: the walk over the tracks, the parent links and
/// the composition camera.
pub open spec fn structure_passes(doc: Document) -> bool {
    &&& document_walk(doc).0 is Ok
    &&& !has_parent_cycle(document_walk(doc).1.1)
    &&& camera_result(doc, doc.composition.camera_spec(), "composition.camera"@) is Ok
}

/// The document passes every check.
pub open spec fn document_valid(doc: Document) -> bool {
    &&& structure_passes(doc)
    &&& uses_result(doc, document_uses(doc), document_uses(doc).len()) is Ok
}

/// Once a reference fails, the result of the list is that failure.
proof fn lemma_uses_failure_sticks(doc: Document, uses: Seq<AssetUseView>, n: nat, m: nat)
    requires
        n <= m,
        uses_result(doc, uses, n) is Err,
    ensures
        uses_result(doc, uses, m) == uses_result(doc, uses, n),
    decreases m,
{
    if m > n {
        lemma_uses_failure_sticks(doc, uses, n, (m - 1) as nat);
    }
}

/// Checks one asset reference.
pub fn check_asset_use(doc: &Document, u: &AssetUse) -> (r: Result<(), DocumentError>)
    ensures
        result_view(r) == use_result(*doc, u@),
{
    match doc.asset(u.id) {
        None => Err(DocumentError::UnknownAssetId { id: u.id.get() }),
        Some(entry) => {
            if u.allowed_types.allows(entry.media_type.as_str()) {
                Ok(())
            } else {
                Err(DocumentError::DisallowedAssetType { id: u.id.get(), path: u.path.clone() })
            }
        },
    }
}

/// Checks asset references in order; the first failure is given back.
pub fn check_asset_uses(doc: &Document, uses: &Vec<AssetUse>) -> (r: Result<(), DocumentError>)
    ensures
        result_view(r) == uses_result(*doc, uses_view(uses@), uses@.len()),
{
    let ghost v = uses_view(uses@);
    let mut i: usize = 0;
    while i < uses.len()
        invariant
            i <= uses@.len(),
            v == uses_view(uses@),
            uses_result(*doc, v, i as nat) == Ok::<(), DocumentErrorView>(()),
        decreases uses.len() - i,
    {
        let r = check_asset_use(doc, &uses[i]);
        assert(v[i as int] == uses@[i as int]@);
        if r.is_err() {
            proof {
                lemma_uses_failure_sticks(*doc, v, (i + 1) as nat, uses@.len());
            }
            return r;
        }
        i = i + 1;
    }
    Ok(())
}

impl Document {
    /// Every check of the document: the structural checks, then the asset
    /// references of the inventory in order. The first failure is given back.
    pub fn validate(&self) -> (r: Result<(), DocumentError>)
        ensures
            r is Ok <==> document_valid(*self),
            document_walk(*self).0 is Err ==> result_view(r) == document_walk(*self).0,
            document_walk(*self).0 is Ok && has_parent_cycle(document_walk(*self).1.1) ==> (r matches Err(
                DocumentError::ParentCycle { layer_id },
            ) && on_parent_cycle(document_walk(*self).1.1, layer_id)),
            document_walk(*self).0 is Ok && !has_parent_cycle(document_walk(*self).1.1)
                ==> result_view(r) == and_then(
                camera_result(*self, self.composition.camera_spec(), "composition.camera"@),
                uses_result(*self, document_uses(*self), document_uses(*self).len()),
            ),
    {
        let r = self.validate_structure();
        if r.is_err() {
            return r;
        }
        let uses = self.asset_uses();
        check_asset_uses(self, &uses)
    }
}

/// In a document that passes every check, each asset reference of its
/// inventory names a registered asset whose media type the reference accepts.
pub proof fn lemma_valid_document_references_resolve(doc: Document, i: int)
    requires
        document_valid(doc),
        0 <= i < document_uses(doc).len(),
    ensures
        first_asset(doc.assets@, document_uses(doc)[i].id, 0) matches Some(k) && type_allowed(
            document_uses(doc)[i].allowed_types,
            doc.assets@[k].media_type@,
        ),
{
    lemma_passing_uses_resolve(doc, document_uses(doc), document_uses(doc).len(), i);
}

/// A passing list of references has every one of its references passing.
proof fn lemma_passing_uses_resolve(doc: Document, uses: Seq<AssetUseView>, n: nat, i: int)
    requires
        uses_result(doc, uses, n) is Ok,
        0 <= i < n,
    ensures
        use_result(doc, uses[i]) is Ok,
    decreases n,
{
    if i < n - 1 {
        lemma_passing_uses_resolve(doc, uses, (n - 1) as nat, i);
    }
}

} // verus!
