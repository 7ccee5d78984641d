//! The inventory of asset references in a document: every place that names
//! an asset, with its path and the media types allowed there.

use crate::check_param::child_path;
use crate::document::Document;
use crate::ids::AssetId;
use crate::order::str_eq;
use crate::param::{DocParam, DocValue, Keyframe};
use crate::param_map::{ParamEntry, ParamMap};
use crate::schema::{
    AudioComponent, Clip, ClipSource, CompCameraDoc, Group, PathOp, StandardShape, TrackItem,
    Transform2D, VectorContent,
};
use crate::text::{decimal, join, join_indexed, layer_base, layer_path};
use vstd::prelude::*;
use vstd::string::*;

verus! {

/// The media types an asset reference accepts.
#[derive(Debug, Clone, Copy, PartialEq, Eq, Structural)]
pub enum AllowedAssetTypes {
    /// Any type.
    Any,
    /// `image/svg+xml`, for the SVG content of a vector recipe.
    SvgImage,
    /// `font/ttf`, `font/otf`, `font/woff` or `font/woff2`, for the font of a
    /// text path.
    Font,
}

/// The media type `mime` is allowed.
pub open spec fn type_allowed(allowed: AllowedAssetTypes, mime: Seq<char>) -> bool {
    match allowed {
        AllowedAssetTypes::Any => true,
        AllowedAssetTypes::SvgImage => mime == "image/svg+xml"@,
        AllowedAssetTypes::Font => mime == "font/ttf"@ || mime == "font/otf"@ || mime
            == "font/woff"@ || mime == "font/woff2"@,
    }
}

impl AllowedAssetTypes {
    /// Whether an asset of media type `mime` may be used here.
    pub fn allows(&self, mime: &str) -> (r: bool)
        ensures
            r == type_allowed(*self, mime@),
    {
        match self {
            AllowedAssetTypes::Any => true,
            AllowedAssetTypes::SvgImage => str_eq(mime, "image/svg+xml"),
            AllowedAssetTypes::Font => str_eq(mime, "font/ttf") || str_eq(mime, "font/otf")
                || str_eq(mime, "font/woff") || str_eq(mime, "font/woff2"),
        }
    }
}

/// One place that names an asset.
#[derive(Debug, Clone)]
pub struct AssetUse {
    pub id: AssetId,
    pub path: String,
    pub allowed_types: AllowedAssetTypes,
}

/// An asset use with its path as a sequence.
pub struct AssetUseView {
    pub id: AssetId,
    pub path: Seq<char>,
    pub allowed_types: AllowedAssetTypes,
}

impl View for AssetUse {
    type V = AssetUseView;

    open spec fn view(&self) -> AssetUseView {
        AssetUseView { id: self.id, path: self.path@, allowed_types: self.allowed_types }
    }
}

/// The views of a list of uses.
pub open spec fn uses_view(s: Seq<AssetUse>) -> Seq<AssetUseView> {
    s.map_values(|u: AssetUse| u@)
}

/// A use of `id` at `path`.
pub open spec fn use_at(id: AssetId, path: Seq<char>, allowed: AllowedAssetTypes) -> AssetUseView {
    AssetUseView { id, path, allowed_types: allowed }
}

/// The asset named by a value, if any.
pub open spec fn value_uses(v: DocValue, path: Seq<char>) -> Seq<AssetUseView> {
    match v {
        DocValue::AssetRef(id) => seq![use_at(id, path, AllowedAssetTypes::Any)],
        _ => seq![],
    }
}

/// The assets named by the first `n` keys of a track.
pub open spec fn keys_uses(keys: Seq<Keyframe>, n: nat, path: Seq<char>) -> Seq<AssetUseView>
    decreases n,
{
    if n == 0 {
        seq![]
    } else {
        keys_uses(keys, (n - 1) as nat, path) + value_uses(keys[n - 1].value, path)
    }
}

/// The assets named by a parameter: by its constant, its keys, its fallback,
/// or its axes. Links name layers, not assets.
pub open spec fn param_uses(p: DocParam, path: Seq<char>) -> Seq<AssetUseView>
    decreases p,
{
    match p {
        DocParam::Const(v) => value_uses(v, path),
        DocParam::Keyframes(track) => keys_uses(track.keys@, track.keys@.len(), path),
        DocParam::Data { track: _, fallback } => value_uses(fallback, path),
        DocParam::Vec2Axes { x, y } => param_uses(*x, path + ".x"@) + param_uses(*y, path + ".y"@),
        DocParam::LookAt { .. } => seq![],
        DocParam::Follow { .. } => seq![],
    }
}

/// The assets named by a transform's parameters.
pub open spec fn transform_uses(t: Transform2D, base: Seq<char>) -> Seq<AssetUseView> {
    param_uses(t.position, base + ".position"@) + param_uses(t.anchor, base + ".anchor"@)
        + param_uses(t.scale, base + ".scale"@) + param_uses(t.rotation, base + ".rotation"@)
        + param_uses(t.z, base + ".z"@)
}

/// The assets named by the composition camera.
pub open spec fn camera_uses(camera: CompCameraDoc) -> Seq<AssetUseView> {
    match camera {
        CompCameraDoc::PlanarOrthographic { center, roll_radians, height } => param_uses(
            center,
            "composition.camera.center"@,
        ) + param_uses(roll_radians, "composition.camera.roll_radians"@) + param_uses(
            height,
            "composition.camera.height"@,
        ),
    }
}

/// The number of children of a vector group (zero for other contents).
pub open spec fn vector_children_len(c: VectorContent) -> nat {
    match c {
        VectorContent::Group { children } => children@.len(),
        _ => 0,
    }
}

/// The assets named by vector content: shape sizes, the SVG asset (which must
/// be SVG), the font of a text path (which must be a font), and the
/// children of a group.
pub open spec fn content_uses(c: VectorContent, path: Seq<char>) -> Seq<AssetUseView>
    decreases c, vector_children_len(c) + 1,
{
    match c {
        VectorContent::StandardShape { shape } => match shape {
            StandardShape::Rect { width, height } => param_uses(width, path + ".width"@)
                + param_uses(height, path + ".height"@),
            StandardShape::Ellipse { width, height } => param_uses(width, path + ".width"@)
                + param_uses(height, path + ".height"@),
        },
        VectorContent::SvgAsset { asset } => seq![
            use_at(asset, path + ".asset"@, AllowedAssetTypes::SvgImage),
        ],
        VectorContent::TextPath { text: _, font_asset } => seq![
            use_at(font_asset, path + ".font_asset"@, AllowedAssetTypes::Font),
        ],
        VectorContent::Group { children } => group_content_uses(c, children@.len(), path),
    }
}

/// The assets named by the first `n` children of a vector group.
pub open spec fn group_content_uses(g: VectorContent, n: nat, path: Seq<char>) -> Seq<AssetUseView>
    decreases g, n,
{
    match g {
        VectorContent::Group { children } => if n == 0 || n > children@.len() {
            seq![]
        } else {
            group_content_uses(g, (n - 1) as nat, path) + content_uses(
                children@[n - 1],
                child_path(path, n - 1),
            )
        },
        _ => seq![],
    }
}

/// The assets named by a path operator's parameters.
pub open spec fn path_op_uses(op: PathOp, path: Seq<char>) -> Seq<AssetUseView> {
    match op {
        PathOp::PuckerBloat { amount } => param_uses(amount, path + ".amount"@),
        PathOp::ZigZag { amount, ridges, point_type: _ } => param_uses(amount, path + ".amount"@)
            + param_uses(ridges, path + ".ridges"@),
        PathOp::Offset { distance, .. } => param_uses(distance, path + ".distance"@),
        PathOp::RoundCorners { radius } => param_uses(radius, path + ".radius"@),
        PathOp::Trim { start, end, offset, mode: _ } => param_uses(start, path + ".start"@)
            + param_uses(end, path + ".end"@) + param_uses(offset, path + ".offset"@),
        PathOp::Twist { angle, center } => param_uses(angle, path + ".angle"@) + param_uses(
            center,
            path + ".center"@,
        ),
        PathOp::Wiggle { amp, freq, seed: _ } => param_uses(amp, path + ".amp"@) + param_uses(
            freq,
            path + ".freq"@,
        ),
        PathOp::Repeater { copies, offset, transform, composite: _, start_opacity, end_opacity } =>
            param_uses(copies, path + ".copies"@) + param_uses(offset, path + ".offset"@)
            + transform_uses(transform, path + ".transform"@) + param_uses(
            start_opacity,
            path + ".start_opacity"@,
        ) + param_uses(end_opacity, path + ".end_opacity"@),
    }
}

/// The assets named by the gains of the first `n` audio components.
pub open spec fn audio_uses(audio: Seq<AudioComponent>, n: nat, base: Seq<char>) -> Seq<
    AssetUseView,
>
    decreases n,
{
    if n == 0 {
        seq![]
    } else {
        audio_uses(audio, (n - 1) as nat, base) + param_uses(
            audio[n - 1].gain,
            base + ".source.audio"@ + "["@ + decimal((n - 1) as nat) + "]"@ + ".gain"@,
        )
    }
}

/// The assets named by the first `n` named parameters, each at `base` followed
/// by its name.
pub open spec fn entries_uses(entries: Seq<ParamEntry>, n: nat, base: Seq<char>) -> Seq<
    AssetUseView,
>
    decreases n,
{
    if n == 0 {
        seq![]
    } else {
        entries_uses(entries, (n - 1) as nat, base) + param_uses(
            entries[n - 1].param,
            base + entries[n - 1].name@,
        )
    }
}

/// The assets named by the first `n` modifiers of a recipe.
pub open spec fn modifiers_uses(ops: Seq<PathOp>, n: nat, base: Seq<char>) -> Seq<AssetUseView>
    decreases n,
{
    if n == 0 {
        seq![]
    } else {
        modifiers_uses(ops, (n - 1) as nat, base) + path_op_uses(
            ops[n - 1],
            base + "["@ + decimal((n - 1) as nat) + "]"@ + ""@,
        )
    }
}

/// The assets named by a clip's source, for the layer at `base`.
pub open spec fn source_uses(source: ClipSource, base: Seq<char>) -> Seq<AssetUseView> {
    match source {
        ClipSource::Asset { asset, video: _, audio } => seq![
            use_at(asset, base + ".source.asset"@, AllowedAssetTypes::Any),
        ] + audio_uses(audio@, audio@.len(), base),
        ClipSource::Plugin { params, .. } => entries_uses(
            params.entry_seq(),
            params.entry_seq().len(),
            base + ".source."@,
        ),
        ClipSource::Vector { recipe } => content_uses(recipe.content, base + ".recipe"@)
            + modifiers_uses(recipe.modifiers@, recipe.modifiers@.len(), base + ".recipe.modifiers"@),
    }
}

/// The assets named by a track item: its envelope's transform and opacity,
/// then the clip's source or the group's children. Effect uses and the row
/// color name no asset.
pub open spec fn item_uses(item: TrackItem) -> Seq<AssetUseView>
    decreases item, 0nat,
{
    match item {
        TrackItem::Clip(clip) => {
            let base = layer_path(clip.envelope.layer_id.raw);
            transform_uses(clip.envelope.transform, base + ".transform"@) + param_uses(
                clip.envelope.opacity,
                base + ".opacity"@,
            ) + source_uses(clip.source, base)
        },
        TrackItem::Group(g) => {
            let base = layer_path(g.envelope.layer_id.raw);
            transform_uses(g.envelope.transform, base + ".transform"@) + param_uses(
                g.envelope.opacity,
                base + ".opacity"@,
            ) + group_children_uses(g, g.children@.len())
        },
    }
}

/// The assets named by the first `n` children of a group.
pub open spec fn group_children_uses(g: Group, n: nat) -> Seq<AssetUseView>
    decreases g, n,
{
    if n == 0 || n > g.children@.len() {
        seq![]
    } else {
        group_children_uses(g, (n - 1) as nat) + item_uses(g.children@[n - 1])
    }
}

/// A use of `id` at `path`.
pub fn asset_use(id: AssetId, path: String, allowed_types: AllowedAssetTypes) -> (u: AssetUse)
    ensures
        u@ == use_at(id, path@, allowed_types),
{
    AssetUse { id, path, allowed_types }
}

/// Appends a use to the inventory.
fn push_use(out: &mut Vec<AssetUse>, u: AssetUse)
    ensures
        uses_view(final(out)@) == uses_view(old(out)@).push(u@),
{
    out.push(u);
    assert(uses_view(out@) =~= uses_view(old(out)@).push(u@));
}

/// Appends the asset named by a value, if any.
fn collect_asset_uses_value(value: &DocValue, path: &str, out: &mut Vec<AssetUse>)
    ensures
        uses_view(final(out)@) == uses_view(old(out)@) + value_uses(*value, path@),
{
    if let DocValue::AssetRef(id) = value {
        push_use(out, asset_use(*id, String::from_str(path), AllowedAssetTypes::Any));
        assert(uses_view(out@) =~= uses_view(old(out)@) + value_uses(*value, path@));
    } else {
        assert(uses_view(out@) =~= uses_view(old(out)@) + value_uses(*value, path@));
    }
}

/// Appends the assets named by a parameter.
pub fn collect_asset_uses_param(param: &DocParam, path: &str, out: &mut Vec<AssetUse>)
    ensures
        uses_view(final(out)@) == uses_view(old(out)@) + param_uses(*param, path@),
    decreases param,
{
    match param {
        DocParam::Const(value) => collect_asset_uses_value(value, path, out),
        DocParam::Keyframes(track) => {
            let keys = track.keys();
            let ghost start = uses_view(out@);
            let mut i: usize = 0;
            while i < keys.len()
                invariant
                    i <= keys@.len(),
                    uses_view(out@) == start + keys_uses(keys@, i as nat, path@),
                decreases keys.len() - i,
            {
                collect_asset_uses_value(&keys[i].value, path, out);
                proof {
                    assert(start + keys_uses(keys@, (i + 1) as nat, path@) =~= start + keys_uses(
                        keys@,
                        i as nat,
                        path@,
                    ) + value_uses(keys@[i as int].value, path@));
                }
                i = i + 1;
            }
        },
        DocParam::Data { track: _, fallback } => collect_asset_uses_value(fallback, path, out),
        DocParam::Vec2Axes { x, y } => {
            let px = join(path, ".x");
            collect_asset_uses_param(x, px.as_str(), out);
            let py = join(path, ".y");
            collect_asset_uses_param(y, py.as_str(), out);
            assert(uses_view(out@) =~= uses_view(old(out)@) + param_uses(*param, path@));
        },
        DocParam::LookAt { .. } | DocParam::Follow { .. } => {
            assert(uses_view(out@) =~= uses_view(old(out)@) + param_uses(*param, path@));
        },
    }
}

/// Appends the assets named by the parameter at `base` followed by `suffix`.
fn collect_param_at(param: &DocParam, base: &str, suffix: &str, out: &mut Vec<AssetUse>)
    ensures
        uses_view(final(out)@) == uses_view(old(out)@) + param_uses(*param, base@ + suffix@),
{
    let path = join(base, suffix);
    collect_asset_uses_param(param, path.as_str(), out);
}

/// Appends the assets named by a transform's parameters.
pub fn collect_asset_uses_transform(transform: &Transform2D, base: &str, out: &mut Vec<AssetUse>)
    ensures
        uses_view(final(out)@) == uses_view(old(out)@) + transform_uses(*transform, base@),
{
    collect_param_at(&transform.position, base, ".position", out);
    collect_param_at(&transform.anchor, base, ".anchor", out);
    collect_param_at(&transform.scale, base, ".scale", out);
    collect_param_at(&transform.rotation, base, ".rotation", out);
    collect_param_at(&transform.z, base, ".z", out);
    assert(uses_view(out@) =~= uses_view(old(out)@) + transform_uses(*transform, base@));
}

/// Appends the assets named by the composition camera.
pub fn collect_asset_uses_comp_camera(camera: &CompCameraDoc, out: &mut Vec<AssetUse>)
    ensures
        uses_view(final(out)@) == uses_view(old(out)@) + camera_uses(*camera),
{
    match camera {
        CompCameraDoc::PlanarOrthographic { center, roll_radians, height } => {
            collect_asset_uses_param(center, "composition.camera.center", out);
            collect_asset_uses_param(roll_radians, "composition.camera.roll_radians", out);
            collect_asset_uses_param(height, "composition.camera.height", out);
            assert(uses_view(out@) =~= uses_view(old(out)@) + camera_uses(*camera));
        },
    }
}

/// Appends the assets named by vector content.
fn collect_asset_uses_vector_content(content: &VectorContent, path: &str, out: &mut Vec<AssetUse>)
    ensures
        uses_view(final(out)@) == uses_view(old(out)@) + content_uses(*content, path@),
    decreases content,
{
    match content {
        VectorContent::StandardShape { shape } => match shape {
            StandardShape::Rect { width, height } | StandardShape::Ellipse { width, height } => {
                collect_param_at(width, path, ".width", out);
                collect_param_at(height, path, ".height", out);
                assert(uses_view(out@) =~= uses_view(old(out)@) + content_uses(*content, path@));
            },
        },
        VectorContent::SvgAsset { asset } => {
            push_use(out, asset_use(*asset, join(path, ".asset"), AllowedAssetTypes::SvgImage));
            assert(uses_view(out@) =~= uses_view(old(out)@) + content_uses(*content, path@));
        },
        VectorContent::TextPath { text: _, font_asset } => {
            push_use(out, asset_use(*font_asset, join(path, ".font_asset"), AllowedAssetTypes::Font));
            assert(uses_view(out@) =~= uses_view(old(out)@) + content_uses(*content, path@));
        },
        VectorContent::Group { children } => {
            let ghost start = uses_view(out@);
            let children_base = join(path, ".children");
            let mut index: usize = 0;
            while index < children.len()
                invariant
                    index <= children@.len(),
                    *content == (VectorContent::Group { children: *children }),
                    children_base@ == path@ + ".children"@,
                    uses_view(out@) == start + group_content_uses(*content, index as nat, path@),
                decreases children.len() - index,
            {
                proof {
                    broadcast use vstd::std_specs::vec::axiom_vec_decreases_to_view;

                    assert(decreases_to!(*content => (*content)->children));
                    assert(decreases_to!(*children => children@));
                    assert(decreases_to!(children@ => children@[index as int]));
                }
                let child_path_str = join_indexed(children_base.as_str(), index as u64, "");
                collect_asset_uses_vector_content(&children[index], child_path_str.as_str(), out);
                proof {
                    assert(start + group_content_uses(*content, (index + 1) as nat, path@) =~= start
                        + group_content_uses(*content, index as nat, path@) + content_uses(
                        children@[index as int],
                        child_path(path@, index as int),
                    ));
                }
                index = index + 1;
            }
        },
    }
}

/// Appends the assets named by a path operator's parameters.
pub fn collect_asset_uses_path_op(op: &PathOp, path: &str, out: &mut Vec<AssetUse>)
    ensures
        uses_view(final(out)@) == uses_view(old(out)@) + path_op_uses(*op, path@),
{
    match op {
        PathOp::PuckerBloat { amount } => collect_param_at(amount, path, ".amount", out),
        PathOp::ZigZag { amount, ridges, point_type: _ } => {
            collect_param_at(amount, path, ".amount", out);
            collect_param_at(ridges, path, ".ridges", out);
        },
        PathOp::Offset { distance, line_join: _, miter_limit: _ } => collect_param_at(
            distance,
            path,
            ".distance",
            out,
        ),
        PathOp::RoundCorners { radius } => collect_param_at(radius, path, ".radius", out),
        PathOp::Trim { start, end, offset, mode: _ } => {
            collect_param_at(start, path, ".start", out);
            collect_param_at(end, path, ".end", out);
            collect_param_at(offset, path, ".offset", out);
        },
        PathOp::Twist { angle, center } => {
            collect_param_at(angle, path, ".angle", out);
            collect_param_at(center, path, ".center", out);
        },
        PathOp::Wiggle { amp, freq, seed: _ } => {
            collect_param_at(amp, path, ".amp", out);
            collect_param_at(freq, path, ".freq", out);
        },
        PathOp::Repeater { copies, offset, transform, composite: _, start_opacity, end_opacity } => {
            collect_param_at(copies, path, ".copies", out);
            collect_param_at(offset, path, ".offset", out);
            let transform_path = join(path, ".transform");
            collect_asset_uses_transform(transform, transform_path.as_str(), out);
            collect_param_at(start_opacity, path, ".start_opacity", out);
            collect_param_at(end_opacity, path, ".end_opacity", out);
        },
    }
    assert(uses_view(out@) =~= uses_view(old(out)@) + path_op_uses(*op, path@));
}

/// Appends the assets of an asset source: the asset itself, then the gains of
/// its audio components.
fn collect_asset_source(asset: AssetId, audio: &Vec<AudioComponent>, base: &str, out: &mut Vec<AssetUse>)
    ensures
        uses_view(final(out)@) == uses_view(old(out)@) + seq![
            use_at(asset, base@ + ".source.asset"@, AllowedAssetTypes::Any),
        ] + audio_uses(audio@, audio@.len(), base@),
{
    push_use(out, asset_use(asset, join(base, ".source.asset"), AllowedAssetTypes::Any));
    let ghost after_asset = uses_view(out@);
    let audio_base = join(base, ".source.audio");
    let mut index: usize = 0;
    while index < audio.len()
        invariant
            index <= audio@.len(),
            audio_base@ == base@ + ".source.audio"@,
            uses_view(out@) == after_asset + audio_uses(audio@, index as nat, base@),
        decreases audio.len() - index,
    {
        let gain_path = join_indexed(audio_base.as_str(), index as u64, ".gain");
        collect_asset_uses_param(&audio[index].gain, gain_path.as_str(), out);
        proof {
            assert(after_asset + audio_uses(audio@, (index + 1) as nat, base@) =~= after_asset
                + audio_uses(audio@, index as nat, base@) + param_uses(
                audio@[index as int].gain,
                base@ + ".source.audio"@ + "["@ + decimal(index as nat) + "]"@ + ".gain"@,
            ));
        }
        index = index + 1;
    }
    assert(uses_view(out@) =~= uses_view(old(out)@) + seq![
        use_at(asset, base@ + ".source.asset"@, AllowedAssetTypes::Any),
    ] + audio_uses(audio@, audio@.len(), base@));
}

/// Appends the assets of named parameters, each at `prefix` followed by its
/// name.
fn collect_entries(params: &ParamMap, prefix: &str, out: &mut Vec<AssetUse>)
    ensures
        uses_view(final(out)@) == uses_view(old(out)@) + entries_uses(
            params.entry_seq(),
            params.entry_seq().len(),
            prefix@,
        ),
{
    let ghost start = uses_view(out@);
    let mut i: usize = 0;
    while i < params.len()
        invariant
            i <= params.entry_seq().len(),
            uses_view(out@) == start + entries_uses(params.entry_seq(), i as nat, prefix@),
        decreases params.entry_seq().len() - i,
    {
        let entry = params.entry(i);
        let path = join(prefix, entry.name.as_str());
        collect_asset_uses_param(&entry.param, path.as_str(), out);
        proof {
            assert(start + entries_uses(params.entry_seq(), (i + 1) as nat, prefix@) =~= start
                + entries_uses(params.entry_seq(), i as nat, prefix@) + param_uses(
                params.entry_seq()[i as int].param,
                prefix@ + params.entry_seq()[i as int].name@,
            ));
        }
        i = i + 1;
    }
}

/// Appends the assets of a vector recipe: its content, then its modifiers.
fn collect_recipe(recipe: &crate::schema::VectorRecipe, base: &str, out: &mut Vec<AssetUse>)
    ensures
        uses_view(final(out)@) == uses_view(old(out)@) + content_uses(
            recipe.content,
            base@ + ".recipe"@,
        ) + modifiers_uses(recipe.modifiers@, recipe.modifiers@.len(), base@ + ".recipe.modifiers"@),
{
    let recipe_path = join(base, ".recipe");
    collect_asset_uses_vector_content(&recipe.content, recipe_path.as_str(), out);
    let ghost after_content = uses_view(out@);
    let modifiers_base = join(base, ".recipe.modifiers");
    let mut index: usize = 0;
    while index < recipe.modifiers.len()
        invariant
            index <= recipe.modifiers@.len(),
            modifiers_base@ == base@ + ".recipe.modifiers"@,
            uses_view(out@) == after_content + modifiers_uses(
                recipe.modifiers@,
                index as nat,
                base@ + ".recipe.modifiers"@,
            ),
        decreases recipe.modifiers.len() - index,
    {
        let path = join_indexed(modifiers_base.as_str(), index as u64, "");
        collect_asset_uses_path_op(&recipe.modifiers[index], path.as_str(), out);
        proof {
            assert(after_content + modifiers_uses(
                recipe.modifiers@,
                (index + 1) as nat,
                base@ + ".recipe.modifiers"@,
            ) =~= after_content + modifiers_uses(
                recipe.modifiers@,
                index as nat,
                base@ + ".recipe.modifiers"@,
            ) + path_op_uses(
                recipe.modifiers@[index as int],
                base@ + ".recipe.modifiers"@ + "["@ + decimal(index as nat) + "]"@ + ""@,
            ));
        }
        index = index + 1;
    }
    assert(uses_view(out@) =~= uses_view(old(out)@) + content_uses(recipe.content, base@ + ".recipe"@)
        + modifiers_uses(recipe.modifiers@, recipe.modifiers@.len(), base@ + ".recipe.modifiers"@));
}

/// Appends the assets named by a clip's source, for the layer at `base`.
fn collect_asset_uses_source(source: &ClipSource, base: &str, out: &mut Vec<AssetUse>)
    ensures
        uses_view(final(out)@) == uses_view(old(out)@) + source_uses(*source, base@),
{
    match source {
        ClipSource::Asset { asset, video: _, audio } => collect_asset_source(*asset, audio, base, out),
        ClipSource::Plugin { plugin_id: _, effect_version: _, params, extra: _ } => {
            let prefix = join(base, ".source.");
            collect_entries(params, prefix.as_str(), out);
        },
        ClipSource::Vector { recipe } => collect_recipe(recipe, base, out),
    }
}

/// Appends the assets named by a track item and, for a group, its children.
pub fn collect_asset_uses_item(item: &TrackItem, out: &mut Vec<AssetUse>)
    ensures
        uses_view(final(out)@) == uses_view(old(out)@) + item_uses(*item),
    decreases item,
{
    let ghost start = uses_view(out@);
    match item {
        TrackItem::Clip(clip) => {
            let base = layer_base(clip.envelope.layer_id.get());
            let transform_path = join(base.as_str(), ".transform");
            collect_asset_uses_transform(&clip.envelope.transform, transform_path.as_str(), out);
            collect_param_at(&clip.envelope.opacity, base.as_str(), ".opacity", out);
            collect_asset_uses_source(&clip.source, base.as_str(), out);
            assert(uses_view(out@) =~= start + item_uses(*item));
        },
        TrackItem::Group(group) => {
            let base = layer_base(group.envelope.layer_id.get());
            let transform_path = join(base.as_str(), ".transform");
            collect_asset_uses_transform(&group.envelope.transform, transform_path.as_str(), out);
            collect_param_at(&group.envelope.opacity, base.as_str(), ".opacity", out);
            let ghost after_envelope = uses_view(out@);
            let mut i: usize = 0;
            while i < group.children.len()
                invariant
                    i <= group.children@.len(),
                    *item == TrackItem::Group(*group),
                    uses_view(out@) == after_envelope + group_children_uses(*group, i as nat),
                decreases group.children.len() - i,
            {
                proof {
                    broadcast use vstd::std_specs::vec::axiom_vec_decreases_to_view;

                    assert(decreases_to!(*item => (*item)->Group_0));
                    assert(decreases_to!(*group => group.children));
                    assert(decreases_to!(group.children => group.children@));
                    assert(decreases_to!(group.children@ => group.children@[i as int]));
                }
                collect_asset_uses_item(&group.children[i], out);
                proof {
                    assert(after_envelope + group_children_uses(*group, (i + 1) as nat) =~= after_envelope
                        + group_children_uses(*group, i as nat) + item_uses(group.children@[i as int]));
                }
                i = i + 1;
            }
            assert(uses_view(out@) =~= start + item_uses(*item));
        },
    }
}

/// The assets named by the first `n` parameters of the effect definition `d`
/// (the `index`-th of the document).
pub open spec fn definition_uses(d: crate::schema::EffectDefinition, index: int) -> Seq<AssetUseView> {
    entries_uses(
        d.params.entry_seq(),
        d.params.entry_seq().len(),
        "effect_definitions"@ + "["@ + decimal(index as nat) + "]"@ + "."@,
    )
}

/// The assets named by the first `n` effect definitions.
pub open spec fn definitions_uses(defs: Seq<crate::schema::EffectDefinition>, n: nat) -> Seq<
    AssetUseView,
>
    decreases n,
{
    if n == 0 {
        seq![]
    } else {
        definitions_uses(defs, (n - 1) as nat) + definition_uses(defs[n - 1], n - 1)
    }
}

/// The assets named by the items of the first `n` tracks.
pub open spec fn tracks_uses(tracks: Seq<crate::schema::Track>, n: nat) -> Seq<AssetUseView>
    decreases n,
{
    if n == 0 {
        seq![]
    } else {
        tracks_uses(tracks, (n - 1) as nat) + items_uses(
            tracks[n - 1].items@,
            tracks[n - 1].items@.len(),
        )
    }
}

/// The assets named by the first `n` items of a track.
pub open spec fn items_uses(items: Seq<TrackItem>, n: nat) -> Seq<AssetUseView>
    decreases n,
{
    if n == 0 {
        seq![]
    } else {
        items_uses(items, (n - 1) as nat) + item_uses(items[n - 1])
    }
}

/// The inventory of a document: the camera, then every track's items, then
/// every effect definition's parameters.
pub open spec fn document_uses(doc: Document) -> Seq<AssetUseView> {
    camera_uses(doc.composition.camera_spec()) + tracks_uses(doc.tracks@, doc.tracks@.len())
        + definitions_uses(doc.effect_definitions@, doc.effect_definitions@.len())
}

impl Document {
    /// Every place of the document that names an asset.
    pub fn asset_uses(&self) -> (r: Vec<AssetUse>)
        ensures
            uses_view(r@) == document_uses(*self),
    {
        let mut out: Vec<AssetUse> = Vec::new();
        collect_asset_uses_comp_camera(self.composition.camera(), &mut out);
        let ghost after_camera = uses_view(out@);
        assert(after_camera =~= camera_uses(self.composition.camera_spec()));
        let mut t: usize = 0;
        while t < self.tracks.len()
            invariant
                t <= self.tracks@.len(),
                uses_view(out@) == after_camera + tracks_uses(self.tracks@, t as nat),
            decreases self.tracks.len() - t,
        {
            let items = &self.tracks[t].items;
            let ghost before_items = uses_view(out@);
            let mut i: usize = 0;
            while i < items.len()
                invariant
                    i <= items@.len(),
                    uses_view(out@) == before_items + items_uses(items@, i as nat),
                decreases items.len() - i,
            {
                collect_asset_uses_item(&items[i], &mut out);
                proof {
                    assert(before_items + items_uses(items@, (i + 1) as nat) =~= before_items
                        + items_uses(items@, i as nat) + item_uses(items@[i as int]));
                }
                i = i + 1;
            }
            proof {
                assert(after_camera + tracks_uses(self.tracks@, (t + 1) as nat) =~= after_camera
                    + tracks_uses(self.tracks@, t as nat) + items_uses(
                    self.tracks@[t as int].items@,
                    self.tracks@[t as int].items@.len(),
                ));
            }
            t = t + 1;
        }
        let ghost after_tracks = uses_view(out@);
        let mut d: usize = 0;
        while d < self.effect_definitions.len()
            invariant
                d <= self.effect_definitions@.len(),
                uses_view(out@) == after_tracks + definitions_uses(self.effect_definitions@, d as nat),
            decreases self.effect_definitions.len() - d,
        {
            let def = &self.effect_definitions[d];
            let prefix = join_indexed("effect_definitions", d as u64, ".");
            collect_entries(&def.params, prefix.as_str(), &mut out);
            proof {
                assert(after_tracks + definitions_uses(self.effect_definitions@, (d + 1) as nat)
                    =~= after_tracks + definitions_uses(self.effect_definitions@, d as nat)
                    + definition_uses(self.effect_definitions@[d as int], d as int));
            }
            d = d + 1;
        }
        assert(uses_view(out@) =~= document_uses(*self));
        out
    }
}

} // verus!
