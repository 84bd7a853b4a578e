//! Composite pipeline keys.
//!
//! A pipeline key is a fixed set of named fields rather than packed bits:
//! view flags (MSAA sample count, HDR, tonemapping, dither), a mesh topology
//! flag and the material-contributed alpha flag. Equal keys mean an already
//! specialized pipeline object may be reused.

use vstd::prelude::*;
use crate::material::AlphaMode2d;

verus! {

/// Tonemapping method configured on a view; `Disabled` stands for the
/// method-free setting.
#[derive(Clone, Copy, Debug, PartialEq, Eq, Hash, Structural)]
pub enum Tonemapping {
    Disabled,
    Reinhard,
    ReinhardLuminance,
    AcesFitted,
    AgX,
    SomewhatBoringDisplayTransform,
    TonyMcMapface,
    BlenderFilmic,
}

/// Debanding dither switch configured on a view.
#[derive(Clone, Copy, Debug, PartialEq, Eq, Hash, Structural)]
pub enum DebandDither {
    Disabled,
    Enabled,
}

/// Primitive topology of a mesh's GPU data.
#[derive(Clone, Copy, Debug, PartialEq, Eq, Hash, Structural)]
pub enum PrimitiveTopology {
    PointList,
    LineList,
    LineStrip,
    TriangleList,
    TriangleStrip,
}

/// Composite key that decides whether a specialized pipeline can be reused.
///
/// Equality is structural over all fields.
#[derive(Clone, Copy, Debug, PartialEq, Eq, Hash, Structural)]
pub struct Mesh2dPipelineKey {
    /// MSAA sample count of the view (1 when multisampling is off).
    pub msaa_samples: u32,
    /// View renders into an HDR target.
    pub hdr: bool,
    /// Tonemapping runs inside the mesh shader for this view.
    pub tonemap_in_shader: bool,
    /// Method used when `tonemap_in_shader` is set.
    pub tonemap_method: Tonemapping,
    /// Debanding dither runs inside the mesh shader.
    pub deband_dither: bool,
    /// The material blends with the colour behind it.
    pub blend_alpha: bool,
    /// Topology of the mesh the pipeline will draw.
    pub topology: PrimitiveTopology,
}

impl Mesh2dPipelineKey {
    /// The neutral key: no flag set, single sample, triangle lists.
    pub open spec fn spec_none() -> Mesh2dPipelineKey {
        Mesh2dPipelineKey {
            msaa_samples: 1,
            hdr: false,
            tonemap_in_shader: false,
            tonemap_method: Tonemapping::Disabled,
            deband_dither: false,
            blend_alpha: false,
            topology: PrimitiveTopology::TriangleList,
        }
    }

    /// The neutral key, as a value.
    pub fn none_key() -> (k: Mesh2dPipelineKey)
        ensures
            k == Mesh2dPipelineKey::spec_none(),
    {
        Mesh2dPipelineKey {
            msaa_samples: 1,
            hdr: false,
            tonemap_in_shader: false,
            tonemap_method: Tonemapping::Disabled,
            deband_dither: false,
            blend_alpha: false,
            topology: PrimitiveTopology::TriangleList,
        }
    }
}

/// The alpha-mode flag a material contributes to its pipeline key: blending
/// sets the blend flag, any other mode sets nothing.
pub open spec fn spec_alpha_mode_pipeline_key(alpha_mode: AlphaMode2d) -> Mesh2dPipelineKey {
    Mesh2dPipelineKey {
        blend_alpha: alpha_mode is Blend,
        ..Mesh2dPipelineKey::spec_none()
    }
}

/// Key bits contributed by a material's alpha mode.
pub fn alpha_mode_pipeline_key(alpha_mode: AlphaMode2d) -> (k: Mesh2dPipelineKey)
    ensures
        k == spec_alpha_mode_pipeline_key(alpha_mode),
{
    let mut k = Mesh2dPipelineKey::none_key();
    match alpha_mode {
        AlphaMode2d::Blend => {
            k.blend_alpha = true;
        },
        _ => {},
    }
    k
}

/// Key bits naming a tonemapping method.
pub fn tonemapping_pipeline_key(tonemapping: Tonemapping) -> (k: Mesh2dPipelineKey)
    ensures
        k == (Mesh2dPipelineKey { tonemap_method: tonemapping, ..Mesh2dPipelineKey::spec_none() }),
{
    let mut k = Mesh2dPipelineKey::none_key();
    k.tonemap_method = tonemapping;
    k
}

/// The view part of a pipeline key.
///
/// Tonemapping-in-shader, its method and the dither flag are taken only when
/// the view is not HDR: an HDR view tonemaps in a later pass, so the in-shader
/// flags must stay clear or tonemapping would be applied twice.
pub open spec fn spec_view_pipeline_key(
    msaa_samples: u32,
    hdr: bool,
    tonemapping: Option<Tonemapping>,
    dither: Option<DebandDither>,
) -> Mesh2dPipelineKey {
    Mesh2dPipelineKey {
        msaa_samples: msaa_samples,
        hdr: hdr,
        tonemap_in_shader: !hdr && tonemapping is Some,
        tonemap_method: if !hdr && tonemapping is Some {
            tonemapping->0
        } else {
            Tonemapping::Disabled
        },
        deband_dither: !hdr && dither == Some(DebandDither::Enabled),
        blend_alpha: false,
        topology: PrimitiveTopology::TriangleList,
    }
}

/// Builds the per-view key from the view's settings.
pub fn view_pipeline_key(
    msaa_samples: u32,
    hdr: bool,
    tonemapping: Option<Tonemapping>,
    dither: Option<DebandDither>,
) -> (k: Mesh2dPipelineKey)
    ensures
        k == spec_view_pipeline_key(msaa_samples, hdr, tonemapping, dither),
        hdr ==> !k.tonemap_in_shader,
{
    let mut k = Mesh2dPipelineKey::none_key();
    k.msaa_samples = msaa_samples;
    k.hdr = hdr;
    if !hdr {
        match tonemapping {
            Some(method) => {
                k.tonemap_in_shader = true;
                let bits = tonemapping_pipeline_key(method);
                k.tonemap_method = bits.tonemap_method;
            },
            None => {},
        }
        match dither {
            Some(DebandDither::Enabled) => {
                k.deband_dither = true;
            },
            _ => {},
        }
    }
    k
}

/// The full per-entity key: view flags, the mesh's topology flag and the
/// material's precomputed flag bits, composed field-wise.
pub open spec fn spec_mesh_pipeline_key(
    view_key: Mesh2dPipelineKey,
    topology: PrimitiveTopology,
    material_bits: Mesh2dPipelineKey,
) -> Mesh2dPipelineKey {
    Mesh2dPipelineKey {
        topology: topology,
        blend_alpha: material_bits.blend_alpha,
        ..view_key
    }
}

/// Composes the full per-entity pipeline key.
pub fn mesh_pipeline_key(
    view_key: Mesh2dPipelineKey,
    topology: PrimitiveTopology,
    material_bits: Mesh2dPipelineKey,
) -> (k: Mesh2dPipelineKey)
    ensures
        k == spec_mesh_pipeline_key(view_key, topology, material_bits),
{
    let mut k = view_key;
    k.topology = topology;
    k.blend_alpha = material_bits.blend_alpha;
    k
}

} // verus!
