//! The document schema: composition, soundtrack, tracks, clips, groups and
//! their envelopes, effect uses and definitions, transforms, media stream
//! components and vector recipes with their path operators.

use crate::arith::{gcd, gcd_spec, lemma_divided_by_gcd_is_reduced};
use crate::float::{f64_is_finite, f64_le, Float64};
use crate::ids::{AssetId, EffectDefinitionId, EffectId, LayerId, TrackId};
use crate::json::JsonObject;
use crate::param::{is_const_f64, is_const_vec2, DocParam, DocValue};
use crate::param_map::ParamMap;
use crate::time::{Fps, RationalTime, TimeMap};
use vstd::prelude::*;

verus! {

/// Errors of the composition settings.
#[derive(Debug, Clone, Copy, PartialEq, Eq, Structural)]
pub enum CompositionError {
    NonPositiveAspectNum(i64),
    NonPositiveAspectDen(i64),
    NonPositiveResolution { width: u32, height: u32 },
    ResolutionTooLarge { width: u32, height: u32, max: u32 },
}

/// The largest output width or height: 8K UHD (7680x4320) with headroom, a
/// permanent limit that refuses only broken input.
pub const MAX_COMPOSITION_RESOLUTION_DIMENSION: u32 = 16384;

/// The composition camera. The only persistent kind is planar orthographic.
#[derive(Debug, Clone, PartialEq)]
pub enum CompCameraDoc {
    PlanarOrthographic { center: DocParam, roll_radians: DocParam, height: DocParam },
}

/// The default camera: center `[0, 0]`, roll `0`, height `1`, all constant.
pub open spec fn is_default_camera(c: CompCameraDoc) -> bool {
    c matches CompCameraDoc::PlanarOrthographic { center, roll_radians, height } && {
        &&& is_const_vec2(center, 0, 0)
        &&& is_const_f64(roll_radians, 0)
        &&& is_const_f64(height, 0x3FF0_0000_0000_0000)
    }
}

impl CompCameraDoc {
    /// Center `[0, 0]`, roll `0`, height `1`, all constant.
    pub fn default_planar_orthographic() -> (c: CompCameraDoc)
        ensures
            is_default_camera(c),
    {
        CompCameraDoc::PlanarOrthographic {
            center: DocParam::const_vec2([Float64::zero(), Float64::zero()]),
            roll_radians: DocParam::const_f64(Float64::zero()),
            height: DocParam::const_f64(Float64::one()),
        }
    }
}

/// The aspect ratio `num : den` in lowest terms of a positive `n : d`.
pub open spec fn reduced_aspect(n: int, d: int) -> (int, int) {
    let g = gcd_spec(n as nat, d as nat) as int;
    (n / g, d / g)
}

/// A width or height the composition accepts as output resolution.
pub open spec fn resolution_dimension_ok(v: u32) -> bool {
    1 <= v <= MAX_COMPOSITION_RESOLUTION_DIMENSION
}

/// What checking an output resolution gives.
pub open spec fn resolution_check(r: (u32, u32)) -> Result<(), CompositionError> {
    if r.0 == 0 || r.1 == 0 {
        Err(CompositionError::NonPositiveResolution { width: r.0, height: r.1 })
    } else if r.0 > MAX_COMPOSITION_RESOLUTION_DIMENSION || r.1
        > MAX_COMPOSITION_RESOLUTION_DIMENSION {
        Err(
            CompositionError::ResolutionTooLarge {
                width: r.0,
                height: r.1,
                max: MAX_COMPOSITION_RESOLUTION_DIMENSION,
            },
        )
    } else {
        Ok(())
    }
}

/// What every composition built and edited through this module keeps: the
/// aspect is positive and in lowest terms, and an output resolution, when
/// set, has both sides in `1..=MAX_COMPOSITION_RESOLUTION_DIMENSION`.
pub open spec fn composition_wf(c: Composition) -> bool {
    &&& c.aspect_num_spec() > 0
    &&& c.aspect_den_spec() > 0
    &&& gcd_spec(c.aspect_num_spec() as nat, c.aspect_den_spec() as nat) == 1
    &&& match c.resolution_spec() {
        Some(r) => resolution_dimension_ok(r.0) && resolution_dimension_ok(r.1),
        None => true,
    }
}

/// Composition settings. The canonical height is always 1; the width is the
/// rational aspect `aspect_num / aspect_den`, kept positive and in lowest terms.
#[derive(Debug, Clone, PartialEq)]
pub struct Composition {
    aspect_num: i64,
    aspect_den: i64,
    pub duration: RationalTime,
    pub fps: Fps,
    pub camera: CompCameraDoc,
    /// Output resolution; `None` derives it from the first video source.
    resolution: Option<(u32, u32)>,
}

impl Composition {
    pub closed spec fn aspect_num_spec(self) -> i64 {
        self.aspect_num
    }

    pub closed spec fn aspect_den_spec(self) -> i64 {
        self.aspect_den
    }

    pub closed spec fn resolution_spec(self) -> Option<(u32, u32)> {
        self.resolution
    }

    pub closed spec fn duration_spec(self) -> RationalTime {
        self.duration
    }

    pub closed spec fn fps_spec(self) -> Fps {
        self.fps
    }

    pub closed spec fn camera_spec(self) -> CompCameraDoc {
        self.camera
    }

    /// The length of the composition.
    pub fn duration(&self) -> (d: &RationalTime)
        ensures
            *d == self.duration_spec(),
    {
        &self.duration
    }

    /// The composition camera.
    pub fn camera(&self) -> (c: &CompCameraDoc)
        ensures
            *c == self.camera_spec(),
    {
        &self.camera
    }

    /// Settings with the aspect `aspect_num : aspect_den` reduced to lowest
    /// terms, the default camera and no output resolution. Both parts of the
    /// aspect must be positive.
    pub fn try_new(aspect_num: i64, aspect_den: i64, duration: RationalTime, fps: Fps) -> (r: Result<
        Composition,
        CompositionError,
    >)
        ensures
            r is Ok <==> aspect_num > 0 && aspect_den > 0,
            aspect_num <= 0 ==> r == Err::<Composition, _>(
                CompositionError::NonPositiveAspectNum(aspect_num),
            ),
            aspect_num > 0 && aspect_den <= 0 ==> r == Err::<Composition, _>(
                CompositionError::NonPositiveAspectDen(aspect_den),
            ),
            r matches Ok(c) ==> {
                &&& (c.aspect_num_spec() as int, c.aspect_den_spec() as int) == reduced_aspect(
                    aspect_num as int,
                    aspect_den as int,
                )
                &&& c.duration_spec() == duration
                &&& c.fps_spec() == fps
                &&& is_default_camera(c.camera_spec())
                &&& c.resolution_spec() is None
                &&& composition_wf(c)
            },
    {
        if aspect_num <= 0 {
            return Err(CompositionError::NonPositiveAspectNum(aspect_num));
        }
        if aspect_den <= 0 {
            return Err(CompositionError::NonPositiveAspectDen(aspect_den));
        }
        let g0 = gcd(aspect_num as u64, aspect_den as u64);
        let g = if g0 > 1 {
            g0
        } else {
            1
        };
        proof {
            lemma_aspect_is_reduced(aspect_num as int, aspect_den as int);
            lemma_divided_by_gcd_is_reduced(aspect_num as nat, aspect_den as nat);
            assert(g0 <= aspect_num as u64) by {
                crate::arith::lemma_gcd_divides(aspect_num as nat, aspect_den as nat);
                let k = choose|k: int| aspect_num as int == crate::arith::times(g0 as int, k);
                assert(aspect_num as int == g0 * k);
                assert(g0 <= aspect_num) by (nonlinear_arith)
                    requires
                        aspect_num as int == g0 * k,
                        g0 > 0,
                        aspect_num > 0,
                ;
            }
        }
        let camera = CompCameraDoc::default_planar_orthographic();
        Ok(
            Composition {
                aspect_num: aspect_num / g as i64,
                aspect_den: aspect_den / g as i64,
                duration,
                fps,
                camera,
                resolution: None,
            },
        )
    }

    /// The first version's default: 16:9, ten seconds, 30 frames per second.
    pub fn new_v1() -> (c: Composition)
        ensures
            c.aspect_num_spec() == 16,
            c.aspect_den_spec() == 9,
            c.duration_spec().numer() == 10 && c.duration_spec().denom() == 1,
            c.fps_spec().numer() == 30 && c.fps_spec().denom() == 1,
            c.resolution_spec() is None,
            is_default_camera(c.camera_spec()),
            composition_wf(c),
    {
        let duration = match RationalTime::try_new(10, 1) {
            Ok(t) => t,
            Err(_) => vstd::pervasive::unreached(),
        };
        let fps = match Fps::try_new(30, 1) {
            Ok(f) => f,
            Err(_) => vstd::pervasive::unreached(),
        };
        proof {
            reveal_with_fuel(gcd_spec, 6);
            assert(gcd_spec(16, 9) == 1);
            assert(gcd_spec((16int) as nat, (9int) as nat) == 1);
            assert(16int / 1 == 16 && 9int / 1 == 9);
            assert(reduced_aspect(16, 9) == (16int, 9int));
        }
        match Composition::try_new(16, 9, duration, fps) {
            Ok(c) => c,
            Err(_) => vstd::pervasive::unreached(),
        }
    }

    pub fn aspect_num(&self) -> (n: i64)
        ensures
            n == self.aspect_num_spec(),
    {
        self.aspect_num
    }

    pub fn aspect_den(&self) -> (d: i64)
        ensures
            d == self.aspect_den_spec(),
    {
        self.aspect_den
    }

    /// The output resolution; `None` derives it from the first video source.
    pub fn resolution(&self) -> (r: Option<(u32, u32)>)
        ensures
            r == self.resolution_spec(),
    {
        self.resolution
    }

    /// Checks an output resolution: both sides positive and at most
    /// `MAX_COMPOSITION_RESOLUTION_DIMENSION`.
    pub fn validate_resolution(resolution: (u32, u32)) -> (r: Result<(), CompositionError>)
        ensures
            r == resolution_check(resolution),
            r is Ok <==> resolution_dimension_ok(resolution.0) && resolution_dimension_ok(
                resolution.1,
            ),
    {
        let (width, height) = resolution;
        if width == 0 || height == 0 {
            return Err(CompositionError::NonPositiveResolution { width, height });
        }
        if width > MAX_COMPOSITION_RESOLUTION_DIMENSION || height
            > MAX_COMPOSITION_RESOLUTION_DIMENSION {
            return Err(
                CompositionError::ResolutionTooLarge {
                    width,
                    height,
                    max: MAX_COMPOSITION_RESOLUTION_DIMENSION,
                },
            );
        }
        Ok(())
    }

    /// Sets the output resolution after checking it; a refused value leaves
    /// the settings unchanged.
    pub fn set_resolution(&mut self, resolution: Option<(u32, u32)>) -> (r: Result<
        (),
        CompositionError,
    >)
        ensures
            match resolution {
                Some(v) => r == resolution_check(v),
                None => r is Ok,
            },
            r is Ok ==> final(self).resolution_spec() == resolution,
            r is Err ==> final(self).resolution_spec() == old(self).resolution_spec(),
            final(self).aspect_num_spec() == old(self).aspect_num_spec(),
            final(self).aspect_den_spec() == old(self).aspect_den_spec(),
            final(self).duration_spec() == old(self).duration_spec(),
            final(self).fps_spec() == old(self).fps_spec(),
            final(self).camera_spec() == old(self).camera_spec(),
            composition_wf(*old(self)) ==> composition_wf(*final(self)),
    {
        if let Some(value) = resolution {
            let checked = Self::validate_resolution(value);
            if let Err(e) = checked {
                return Err(e);
            }
        }
        self.resolution = resolution;
        Ok(())
    }
}

/// The reduced aspect of every composition built by `try_new` is positive,
/// in lowest terms, and the same ratio as the one asked for.
pub proof fn lemma_aspect_is_reduced(n: int, d: int)
    requires
        n > 0,
        d > 0,
    ensures
        reduced_aspect(n, d).0 > 0,
        reduced_aspect(n, d).1 > 0,
        gcd_spec(reduced_aspect(n, d).0 as nat, reduced_aspect(n, d).1 as nat) == 1,
        reduced_aspect(n, d).0 * d == n * reduced_aspect(n, d).1,
{
    lemma_divided_by_gcd_is_reduced(n as nat, d as nat);
    let g = gcd_spec(n as nat, d as nat) as int;
    let a = n / g;
    let b = d / g;
    assert(n == g * a && d == g * b) by (nonlinear_arith)
        requires
            n % g == 0,
            d % g == 0,
            g > 0,
            a == n / g,
            b == d / g,
    ;
    assert(a > 0 && b > 0) by (nonlinear_arith)
        requires
            n == g * a,
            d == g * b,
            n > 0,
            d > 0,
            g > 0,
    ;
    assert(a * d == n * b) by (nonlinear_arith)
        requires
            n == g * a,
            d == g * b,
    ;
}

/// Locator on the timeline: only a time and a name, used to jump there. They
/// are kept in the order they were added.
#[derive(Debug, Clone, PartialEq)]
pub struct Locator {
    pub t: RationalTime,
    pub text: String,
}

/// Errors of the soundtrack.
#[derive(Debug, Clone, Copy, PartialEq)]
pub enum SoundtrackError {
    InvalidGain(Float64),
}

/// The gain is finite and in `[0, 1]`.
pub open spec fn gain_ok(g: u64) -> bool {
    f64_is_finite(g) && f64_le(0, g) && f64_le(g, 0x3FF0_0000_0000_0000)
}

/// The project's one piece of music.
#[derive(Debug, Clone, Copy, PartialEq)]
pub struct Soundtrack {
    pub asset: AssetId,
    pub start_offset: RationalTime,
    master_gain: Float64,
}

impl Soundtrack {
    pub closed spec fn master_gain_spec(self) -> Float64 {
        self.master_gain
    }

    pub closed spec fn asset_spec(self) -> AssetId {
        self.asset
    }

    pub closed spec fn start_offset_spec(self) -> RationalTime {
        self.start_offset
    }

    /// A soundtrack; the master gain must be finite and in `[0, 1]`.
    pub fn try_new(asset: AssetId, start_offset: RationalTime, master_gain: Float64) -> (r: Result<
        Soundtrack,
        SoundtrackError,
    >)
        ensures
            r is Ok <==> gain_ok(master_gain.bits),
            r matches Ok(s) ==> s.asset_spec() == asset && s.start_offset_spec() == start_offset
                && s.master_gain_spec() == master_gain,
            r matches Err(e) ==> e == SoundtrackError::InvalidGain(master_gain),
    {
        if !master_gain.is_finite() || !(Float64::zero().le(&master_gain) && master_gain.le(
            &Float64::one(),
        )) {
            return Err(SoundtrackError::InvalidGain(master_gain));
        }
        Ok(Soundtrack { asset, start_offset, master_gain })
    }

    pub fn master_gain(self) -> (g: Float64)
        ensures
            g == self.master_gain_spec(),
    {
        self.master_gain
    }
}

/// A track of the timeline.
#[derive(Debug, Clone, PartialEq)]
pub struct Track {
    pub id: TrackId,
    pub items: Vec<TrackItem>,
}

/// An item of a track: a clip or a group of items.
#[derive(Debug, PartialEq)]
pub enum TrackItem {
    Clip(Clip),
    Group(Group),
}

impl Clone for TrackItem {
    fn clone(&self) -> (r: TrackItem)
        decreases self,
    {
        match self {
            TrackItem::Clip(clip) => TrackItem::Clip(clip.clone()),
            TrackItem::Group(group) => {
                let mut children: Vec<TrackItem> = Vec::new();
                let mut i: usize = 0;
                while i < group.children.len()
                    invariant
                        *self == TrackItem::Group(*group),
                    decreases group.children.len() - i,
                {
                    proof {
                        broadcast use vstd::std_specs::vec::axiom_vec_decreases_to_view;

                        assert(decreases_to!(*self => (*self)->Group_0));
                        assert(decreases_to!(*group => group.children));
                        assert(decreases_to!(group.children => group.children@));
                        assert(decreases_to!(group.children@ => group.children@[i as int]));
                        assert(decreases_to!(self => group.children@[i as int]));
                    }
                    children.push(group.children[i].clone());
                    i = i + 1;
                }
                TrackItem::Group(Group { envelope: group.envelope.clone(), children })
            },
        }
    }
}

/// The value of a flag that is on unless a stored document says otherwise
/// (`enabled`, `visible`).
pub fn default_true() -> (b: bool)
    ensures
        b,
{
    true
}

/// The value of a flag that is off unless a stored document says otherwise
/// (`solo`, `lock`).
pub fn default_false() -> (b: bool)
    ensures
        !b,
{
    false
}

/// Effect version of a plugin whose version is not given.
pub fn default_effect_version() -> (v: u32)
    ensures
        v == 1,
{
    1
}

/// Opacity of a layer whose opacity is not given: constant `1`.
pub fn default_opacity() -> (p: DocParam)
    ensures
        is_const_f64(p, 0x3FF0_0000_0000_0000),
{
    DocParam::const_f64(Float64::one())
}

/// The envelope shared by clips and groups.
#[derive(Debug, Clone, PartialEq)]
pub struct ItemEnvelope {
    pub layer_id: LayerId,
    /// Ordered stack of effect uses; the recipes are the document's effect
    /// definitions.
    pub effects: Vec<EffectUse>,
    pub transform: Transform2D,
    pub clipping_mask: ClippingMaskSettings,
    pub blend: BlendMode,
    pub opacity: DocParam,
    /// Drawn itself; still usable as a parent, mask or look-at target.
    pub visible: bool,
    /// When any layer of the document is solo, only solo layers are drawn.
    pub solo: bool,
    /// Row color, present only when chosen.
    pub color: Option<u32>,
    /// Editing is forbidden; no effect on evaluation or drawing.
    pub lock: bool,
}

/// The default transform: position, anchor `[0, 0]`, scale `[1, 1]`, rotation
/// `0`, depth `0`, no parent.
pub open spec fn is_identity_transform(t: Transform2D) -> bool {
    &&& is_const_vec2(t.position, 0, 0)
    &&& is_const_vec2(t.anchor, 0, 0)
    &&& is_const_vec2(t.scale, 0x3FF0_0000_0000_0000, 0x3FF0_0000_0000_0000)
    &&& is_const_f64(t.rotation, 0)
    &&& is_const_f64(t.z, 0)
    &&& t.parent is None
}

impl ItemEnvelope {
    /// An envelope with no effects, the identity transform, no clipping mask,
    /// normal blending, opacity 1, visible, not solo, no color, not locked.
    pub fn new(layer_id: LayerId) -> (e: ItemEnvelope)
        ensures
            e.layer_id == layer_id,
            e.effects@.len() == 0,
            is_identity_transform(e.transform),
            e.clipping_mask == (ClippingMaskSettings { enabled: false, mode: MaskMode::Alpha }),
            e.blend == BlendMode::Normal,
            is_const_f64(e.opacity, 0x3FF0_0000_0000_0000),
            e.visible,
            !e.solo,
            e.color is None,
            !e.lock,
    {
        ItemEnvelope {
            layer_id,
            effects: Vec::new(),
            transform: Transform2D::identity(),
            clipping_mask: ClippingMaskSettings::default(),
            blend: BlendMode::Normal,
            opacity: default_opacity(),
            visible: true,
            solo: false,
            color: None,
            lock: false,
        }
    }
}

/// A use of an effect on a layer's stack: its own identity, and the
/// definition whose recipe it applies.
#[derive(Debug, Clone, Copy, PartialEq, Eq, Structural)]
pub struct EffectUse {
    pub id: EffectId,
    pub definition_id: EffectDefinitionId,
}

/// A shareable effect recipe.
#[derive(Debug, Clone, PartialEq)]
pub struct EffectDefinition {
    pub id: EffectDefinitionId,
    pub plugin_id: String,
    pub effect_version: u32,
    pub enabled: bool,
    pub params: ParamMap,
    /// Fields of a newer format, kept as they were read.
    pub extra: JsonObject,
}

impl EffectDefinition {
    /// A definition from its parts.
    pub fn new(
        id: EffectDefinitionId,
        plugin_id: String,
        effect_version: u32,
        enabled: bool,
        params: ParamMap,
        extra: JsonObject,
    ) -> (d: EffectDefinition)
        ensures
            d.id == id,
            d.plugin_id@ == plugin_id@,
            d.effect_version == effect_version,
            d.enabled == enabled,
            d.params@ == params@,
            d.extra == extra,
    {
        EffectDefinition { id, plugin_id, effect_version, enabled, params, extra }
    }

    /// A copy of the recipe under another identity.
    pub fn deep_copy(&self, new_id: EffectDefinitionId) -> (d: EffectDefinition)
        ensures
            d.id == new_id,
            d.plugin_id@ == self.plugin_id@,
            d.effect_version == self.effect_version,
            d.enabled == self.enabled,
            d.params@ == self.params@,
            d.extra == self.extra,
    {
        EffectDefinition {
            id: new_id,
            plugin_id: self.plugin_id.clone(),
            effect_version: self.effect_version,
            enabled: self.enabled,
            params: self.params.duplicate(),
            extra: self.extra.clone(),
        }
    }
}

/// An effect use together with its definition, as a command carries it.
#[derive(Debug, Clone, PartialEq)]
pub struct EffectInstance {
    /// Identity of the use.
    pub id: EffectId,
    pub definition_id: EffectDefinitionId,
    pub plugin_id: String,
    pub effect_version: u32,
    pub enabled: bool,
    pub params: ParamMap,
    pub extra: JsonObject,
}

/// `u` and `d` are the use and the definition that the instance `e` carries.
pub open spec fn instance_split(e: EffectInstance, u: EffectUse, d: EffectDefinition) -> bool {
    &&& u.id == e.id
    &&& u.definition_id == e.definition_id
    &&& d.id == e.definition_id
    &&& d.plugin_id@ == e.plugin_id@
    &&& d.effect_version == e.effect_version
    &&& d.enabled == e.enabled
    &&& d.params@ == e.params@
    &&& d.extra == e.extra
}

/// `e` is the instance made of the use `u` and the definition `d`.
pub open spec fn instance_joined(u: EffectUse, d: EffectDefinition, e: EffectInstance) -> bool {
    &&& e.id == u.id
    &&& e.definition_id == u.definition_id
    &&& e.plugin_id@ == d.plugin_id@
    &&& e.effect_version == d.effect_version
    &&& e.enabled == d.enabled
    &&& e.params@ == d.params@
    &&& e.extra == d.extra
}

/// The two instances hold the same values.
pub open spec fn same_instance(a: EffectInstance, b: EffectInstance) -> bool {
    &&& a.id == b.id
    &&& a.definition_id == b.definition_id
    &&& a.plugin_id@ == b.plugin_id@
    &&& a.effect_version == b.effect_version
    &&& a.enabled == b.enabled
    &&& a.params@ == b.params@
    &&& a.extra == b.extra
}

/// Splitting an effect instance into its use and definition and joining the
/// two again gives back the same instance.
pub proof fn lemma_effect_instance_round_trip(
    e: EffectInstance,
    u: EffectUse,
    d: EffectDefinition,
    back: EffectInstance,
)
    requires
        instance_split(e, u, d),
        instance_joined(u, d, back),
    ensures
        same_instance(back, e),
{
}

/// Joining a use with the definition it names and splitting the instance
/// again gives back the same use and a definition with the same values.
pub proof fn lemma_effect_use_round_trip(
    u: EffectUse,
    d: EffectDefinition,
    e: EffectInstance,
    u2: EffectUse,
    d2: EffectDefinition,
)
    requires
        d.id == u.definition_id,
        instance_joined(u, d, e),
        instance_split(e, u2, d2),
    ensures
        u2 == u,
        d2.id == d.id,
        d2.plugin_id@ == d.plugin_id@,
        d2.effect_version == d.effect_version,
        d2.enabled == d.enabled,
        d2.params@ == d.params@,
        d2.extra == d.extra,
{
}

impl EffectInstance {
    /// Splits into the use and the definition it names.
    pub fn into_use_and_definition(self) -> (r: (EffectUse, EffectDefinition))
        ensures
            instance_split(self, r.0, r.1),
    {
        (
            EffectUse { id: self.id, definition_id: self.definition_id },
            EffectDefinition {
                id: self.definition_id,
                plugin_id: self.plugin_id,
                effect_version: self.effect_version,
                enabled: self.enabled,
                params: self.params,
                extra: self.extra,
            },
        )
    }

    /// Joins a use with a definition.
    pub fn from_use_and_definition(use_: &EffectUse, def: &EffectDefinition) -> (r: EffectInstance)
        ensures
            instance_joined(*use_, *def, r),
    {
        EffectInstance {
            id: use_.id,
            definition_id: use_.definition_id,
            plugin_id: def.plugin_id.clone(),
            effect_version: def.effect_version,
            enabled: def.enabled,
            params: def.params.duplicate(),
            extra: def.extra.clone(),
        }
    }
}

/// A 2D transform in canonical space. `z` is the depth in the world: the
/// default `0` is the plane every layer sits on.
#[derive(Debug, Clone, PartialEq)]
pub struct Transform2D {
    pub position: DocParam,
    pub anchor: DocParam,
    pub scale: DocParam,
    /// Radians.
    pub rotation: DocParam,
    pub z: DocParam,
    pub parent: Option<LayerId>,
}

/// The default depth of a layer: the `z = 0` plane.
pub fn default_layer_z() -> (p: DocParam)
    ensures
        is_const_f64(p, 0),
{
    DocParam::const_f64(Float64::zero())
}

/// A depth equal, as a parameter, to the default one: a constant float equal
/// to zero (either zero).
pub open spec fn is_default_z(z: DocParam) -> bool {
    z matches DocParam::Const(DocValue::F64(v)) && crate::float::f64_eq(v.bits, 0)
}

/// Whether the depth is still the default (such a depth is not written out).
pub fn is_default_layer_z(z: &DocParam) -> (r: bool)
    ensures
        r == is_default_z(*z),
{
    match z {
        DocParam::Const(DocValue::F64(v)) => v.float_eq(&Float64::zero()),
        _ => false,
    }
}

impl Transform2D {
    /// The identity transform.
    pub fn identity() -> (t: Transform2D)
        ensures
            is_identity_transform(t),
    {
        Transform2D {
            position: DocParam::const_vec2([Float64::zero(), Float64::zero()]),
            anchor: DocParam::const_vec2([Float64::zero(), Float64::zero()]),
            scale: DocParam::const_vec2([Float64::one(), Float64::one()]),
            rotation: DocParam::const_f64(Float64::zero()),
            z: default_layer_z(),
            parent: None,
        }
    }
}

/// How a clipping mask is read.
#[derive(Debug, Clone, Copy, PartialEq, Eq, Structural)]
pub enum MaskMode {
    Alpha,
    Luminance,
    InvertAlpha,
    InvertLuminance,
}

/// Clipping mask of a layer.
#[derive(Debug, Clone, PartialEq, Eq, Structural)]
pub struct ClippingMaskSettings {
    pub enabled: bool,
    pub mode: MaskMode,
}

impl Default for ClippingMaskSettings {
    fn default() -> (s: ClippingMaskSettings)
        ensures
            s == (ClippingMaskSettings { enabled: false, mode: MaskMode::Alpha }),
    {
        ClippingMaskSettings { enabled: false, mode: MaskMode::Alpha }
    }
}

/// Blend modes of the document.
#[derive(Debug, Clone, Copy, PartialEq, Eq, Structural, Default)]
pub enum BlendMode {
    #[default]
    Normal,
    Add,
    Multiply,
}

/// A persistent choice of media stream: its kind and its ordinal within the
/// container.
#[derive(Debug, Clone, Copy, PartialEq, Eq, Structural)]
pub struct StreamSelector {
    pub kind: StreamKind,
    pub ordinal: u32,
}

#[derive(Debug, Clone, Copy, PartialEq, Eq, Structural)]
pub enum StreamKind {
    Video,
    Audio,
}

/// The video component of an asset clip (zero or one).
#[derive(Debug, Clone, Copy, PartialEq, Eq, Structural)]
pub struct VideoComponent {
    pub stream: StreamSelector,
}

impl VideoComponent {
    /// The video stream with the given ordinal.
    pub fn ordinal(ordinal: u32) -> (v: VideoComponent)
        ensures
            v.stream == (StreamSelector { kind: StreamKind::Video, ordinal }),
    {
        VideoComponent { stream: StreamSelector { kind: StreamKind::Video, ordinal } }
    }
}

/// What audio plays outside the source's range.
#[derive(Debug, Clone, Copy, PartialEq, Eq, Structural, Default)]
pub enum AudioOutOfRange {
    #[default]
    Silence,
    Loop,
}

/// Gain of an audio component whose gain is not given: constant `1`.
pub fn default_audio_gain() -> (p: DocParam)
    ensures
        is_const_f64(p, 0x3FF0_0000_0000_0000),
{
    DocParam::const_f64(Float64::one())
}

/// An audio component of an asset clip (zero or more).
#[derive(Debug, Clone, PartialEq)]
pub struct AudioComponent {
    pub stream: StreamSelector,
    pub enabled: bool,
    /// Linear, finite, at least zero; no upper limit.
    pub gain: DocParam,
    pub out_of_range: AudioOutOfRange,
}

impl AudioComponent {
    /// The enabled audio stream with the given ordinal, gain 1, silent out of
    /// range.
    pub fn ordinal(ordinal: u32) -> (a: AudioComponent)
        ensures
            a.stream == (StreamSelector { kind: StreamKind::Audio, ordinal }),
            a.enabled,
            is_const_f64(a.gain, 0x3FF0_0000_0000_0000),
            a.out_of_range == AudioOutOfRange::Silence,
    {
        AudioComponent {
            stream: StreamSelector { kind: StreamKind::Audio, ordinal },
            enabled: true,
            gain: default_audio_gain(),
            out_of_range: AudioOutOfRange::Silence,
        }
    }
}

/// The video of an asset clip that omits it: the video stream of ordinal 0.
pub fn default_asset_video() -> (v: Option<VideoComponent>)
    ensures
        v == Some(VideoComponent { stream: StreamSelector { kind: StreamKind::Video, ordinal: 0 } }),
{
    Some(VideoComponent::ordinal(0))
}

/// The video component is the legacy default (video stream 0).
pub open spec fn legacy_default_video(video: Option<VideoComponent>) -> bool {
    video == Some(VideoComponent { stream: StreamSelector { kind: StreamKind::Video, ordinal: 0 } })
}

/// Whether the video component is the legacy default (video stream 0).
pub fn is_legacy_default_video(video: &Option<VideoComponent>) -> (r: bool)
    ensures
        r == legacy_default_video(*video),
{
    match video {
        Some(v) => match v.stream.kind {
            StreamKind::Video => v.stream.ordinal == 0,
            StreamKind::Audio => false,
        },
        None => false,
    }
}

/// Whether an asset clip's components need a reader that knows them: it has
/// audio, or its video is not the legacy default. An older reader would drop
/// such fields on re-save.
pub fn asset_components_require_newer_reader(
    video: &Option<VideoComponent>,
    audio: &[AudioComponent],
) -> (r: bool)
    ensures
        r == (audio@.len() > 0 || !legacy_default_video(*video)),
{
    audio.len() != 0 || !is_legacy_default_video(video)
}

/// The source of a clip.
#[derive(Debug, Clone, PartialEq)]
pub enum ClipSource {
    /// A raster or general asset, with its video and audio components.
    Asset { asset: AssetId, video: Option<VideoComponent>, audio: Vec<AudioComponent> },
    /// A generating plugin.
    Plugin {
        plugin_id: String,
        effect_version: u32,
        params: ParamMap,
        /// Fields of a newer format, kept as they were read.
        extra: JsonObject,
    },
    /// A vector source; the only place path operators live.
    Vector { recipe: VectorRecipe },
}

impl ClipSource {
    /// An asset source in the legacy form: video stream 0, no audio.
    pub fn asset_video_only(asset: AssetId) -> (s: ClipSource)
        ensures
            s matches ClipSource::Asset { asset: a, video, audio } && a == asset
                && legacy_default_video(video) && audio@.len() == 0,
    {
        ClipSource::Asset { asset, video: default_asset_video(), audio: Vec::new() }
    }
}

/// A vector recipe: content, and the path operators applied in order to all
/// of its paths.
#[derive(Debug, Clone, PartialEq)]
pub struct VectorRecipe {
    pub content: VectorContent,
    pub modifiers: Vec<PathOp>,
}

/// The content of a vector recipe.
#[derive(Debug, PartialEq)]
pub enum VectorContent {
    StandardShape { shape: StandardShape },
    SvgAsset { asset: AssetId },
    TextPath { text: String, font_asset: AssetId },
    /// Nesting for path composition (not a timeline group).
    Group { children: Vec<VectorContent> },
}

impl Clone for VectorContent {
    fn clone(&self) -> (r: VectorContent)
        decreases self,
    {
        match self {
            VectorContent::StandardShape { shape } => VectorContent::StandardShape {
                shape: shape.clone(),
            },
            VectorContent::SvgAsset { asset } => VectorContent::SvgAsset { asset: *asset },
            VectorContent::TextPath { text, font_asset } => VectorContent::TextPath {
                text: text.clone(),
                font_asset: *font_asset,
            },
            VectorContent::Group { children } => {
                let mut copies: Vec<VectorContent> = Vec::new();
                let mut i: usize = 0;
                while i < children.len()
                    invariant
                        *self == (VectorContent::Group { children: *children }),
                    decreases children.len() - i,
                {
                    proof {
                        broadcast use vstd::std_specs::vec::axiom_vec_decreases_to_view;

                        assert(decreases_to!(*self => (*self)->children));
                        assert(decreases_to!(*children => children@));
                        assert(decreases_to!(children@ => children@[i as int]));
                        assert(decreases_to!(self => children@[i as int]));
                    }
                    copies.push(children[i].clone());
                    i = i + 1;
                }
                VectorContent::Group { children: copies }
            },
        }
    }
}

#[derive(Debug, Clone, PartialEq)]
pub enum StandardShape {
    Rect { width: DocParam, height: DocParam },
    Ellipse { width: DocParam, height: DocParam },
}

/// A clip of the timeline.
#[derive(Debug, Clone, PartialEq)]
pub struct Clip {
    pub envelope: ItemEnvelope,
    pub start: RationalTime,
    pub duration: RationalTime,
    pub time_map: TimeMap,
    pub source: ClipSource,
}

/// A group of track items.
#[derive(Debug, PartialEq)]
pub struct Group {
    pub envelope: ItemEnvelope,
    pub children: Vec<TrackItem>,
}

impl Clone for Group {
    fn clone(&self) -> (r: Group) {
        let mut children: Vec<TrackItem> = Vec::new();
        let mut i: usize = 0;
        while i < self.children.len()
            decreases self.children.len() - i,
        {
            children.push(self.children[i].clone());
            i = i + 1;
        }
        Group { envelope: self.envelope.clone(), children }
    }
}

/// How trim applies to several paths.
#[derive(Debug, Clone, Copy, PartialEq, Eq, Structural, Default)]
pub enum TrimMode {
    #[default]
    Parallel,
    Sequential,
}

/// Vertex shape of zig-zag.
#[derive(Debug, Clone, Copy, PartialEq, Eq, Structural, Default)]
pub enum PointType {
    #[default]
    Corner,
    Smooth,
}

/// Line join of offset.
#[derive(Debug, Clone, Copy, PartialEq, Eq, Structural, Default)]
pub enum LineJoin {
    #[default]
    Miter,
    Round,
    Bevel,
}

/// Miter limit of an offset that does not give one: `4`.
pub fn default_miter_limit() -> (m: Float64)
    ensures
        m.bits == 0x4010_0000_0000_0000,
{
    Float64::four()
}

/// Order in which repeater copies are composited.
#[derive(Debug, Clone, Copy, PartialEq, Eq, Structural, Default)]
pub enum CompositeOrder {
    #[default]
    Above,
    Below,
}

/// Transform of a repeater that does not give one: the identity.
pub fn default_repeater_transform() -> (t: Transform2D)
    ensures
        is_identity_transform(t),
{
    Transform2D::identity()
}

/// Opacity of a repeater end that does not give one: constant `1`.
pub fn default_full_opacity() -> (p: DocParam)
    ensures
        is_const_f64(p, 0x3FF0_0000_0000_0000),
{
    DocParam::const_f64(Float64::one())
}

/// The closed set of path operators.
#[derive(Debug, Clone, PartialEq)]
pub enum PathOp {
    PuckerBloat { amount: DocParam },
    ZigZag { amount: DocParam, ridges: DocParam, point_type: PointType },
    Offset { distance: DocParam, line_join: LineJoin, miter_limit: Float64 },
    RoundCorners { radius: DocParam },
    Trim { start: DocParam, end: DocParam, offset: DocParam, mode: TrimMode },
    /// The center is required.
    Twist { angle: DocParam, center: DocParam },
    /// The seed is a plain number, fixed for reproducibility.
    Wiggle { amp: DocParam, freq: DocParam, seed: u64 },
    Repeater {
        copies: DocParam,
        offset: DocParam,
        transform: Transform2D,
        composite: CompositeOrder,
        start_opacity: DocParam,
        end_opacity: DocParam,
    },
}

} // verus!
