//! Material preparation: turning a source material into its GPU-ready form,
//! with retry when a dependency is not yet resident.
//!
//! The device context derives the material's bind group; that outcome comes
//! in as a value, so preparation itself is a function of the material and the
//! outcome alone, and re-running it with the same inputs gives the same
//! cache-relevant fields.

use vstd::prelude::*;
use crate::key::{spec_alpha_mode_pipeline_key, alpha_mode_pipeline_key, Mesh2dPipelineKey};
use crate::material::{AlphaMode2d, Material2d};
use crate::table::IdTable;

verus! {

/// Identity of the GPU bind group made for a material; unset until known.
#[derive(Clone, Copy, Debug)]
pub struct Material2dBindGroupId(pub Option<u64>);

impl Default for Material2dBindGroupId {
    /// The unset identity.
    fn default() -> (r: Self)
        ensures
            r.0 is None,
    {
        Material2dBindGroupId(None)
    }
}

/// What the device context produced when binding a material's resources.
#[derive(Clone, Debug)]
pub struct PreparedBindGroup {
    /// Owned binding resources, as (binding index, resource handle) pairs.
    pub bindings: Vec<(u32, u64)>,
    /// Handle of the bind group the device built.
    pub bind_group: u64,
    /// Bind-group key data derived from the material's bound values.
    pub data: u64,
}

/// Refusal of the device context to bind a material this frame.
#[derive(Clone, Copy, Debug, PartialEq, Eq, Structural)]
pub enum AsBindGroupError {
    /// A needed resource (an image, say) is not resident yet; bind again on a
    /// later frame.
    RetryNextUpdate,
}

/// Why preparation produced no prepared material this frame.
#[derive(Clone, Debug)]
pub enum PrepareAssetError {
    /// The source material, handed back so it can be requeued for a later
    /// frame; nothing was written to the cache.
    RetryNextUpdate(Material2d),
}

/// Properties computed from a source material, cached with its prepared form.
#[derive(Clone, Copy, Debug)]
pub struct Material2dProperties {
    /// The material's alpha mode.
    pub alpha_mode: AlphaMode2d,
    /// Bias added to the transparent sort key, in depth units.
    pub depth_bias: i32,
    /// Precomputed pipeline-key bits, ready to be composed per entity.
    pub mesh_pipeline_key_bits: Mesh2dPipelineKey,
}

/// A material in GPU-ready form.
#[derive(Clone, Debug)]
pub struct PreparedMaterial2d {
    /// Owned binding resources, as (binding index, resource handle) pairs.
    pub bindings: Vec<(u32, u64)>,
    /// Handle of the material's bind group.
    pub bind_group: u64,
    /// Bind-group sub-key used for pipeline specialization equality.
    pub key: u64,
    /// Properties computed from the source material.
    pub properties: Material2dProperties,
}

impl PreparedMaterial2d {
    /// The identity of this material's bind group.
    pub fn get_bind_group_id(&self) -> (r: Material2dBindGroupId)
        ensures
            r.0 == Some(self.bind_group),
    {
        Material2dBindGroupId(Some(self.bind_group))
    }
}

/// Cross-frame cache of prepared materials, keyed by material identifier.
pub type RenderMaterials2d = IdTable<PreparedMaterial2d>;

/// What preparing a material returns, as a function of the source material
/// and the device's binding outcome.
pub open spec fn spec_prepare_asset(
    material: Material2d,
    binding: Result<PreparedBindGroup, AsBindGroupError>,
) -> Result<PreparedMaterial2d, PrepareAssetError> {
    match binding {
        Ok(prepared) => Ok(
            PreparedMaterial2d {
                bindings: prepared.bindings,
                bind_group: prepared.bind_group,
                key: prepared.data,
                properties: Material2dProperties {
                    alpha_mode: material.alpha_mode,
                    depth_bias: material.depth_bias,
                    mesh_pipeline_key_bits: spec_alpha_mode_pipeline_key(material.alpha_mode),
                },
            },
        ),
        Err(AsBindGroupError::RetryNextUpdate) => Err(
            PrepareAssetError::RetryNextUpdate(material),
        ),
    }
}

/// Prepares one source material from the device's binding outcome.
///
/// A successful binding yields the GPU-ready form with the alpha-mode flag
/// folded into the precomputed key bits; a retry hands the material back
/// untouched for a later frame.
pub fn prepare_asset(
    material: Material2d,
    binding: Result<PreparedBindGroup, AsBindGroupError>,
) -> (r: Result<PreparedMaterial2d, PrepareAssetError>)
    ensures
        r == spec_prepare_asset(material, binding),
{
    match binding {
        Ok(prepared) => {
            let mesh_pipeline_key_bits = alpha_mode_pipeline_key(material.alpha_mode);
            Ok(
                PreparedMaterial2d {
                    bindings: prepared.bindings,
                    bind_group: prepared.bind_group,
                    key: prepared.data,
                    properties: Material2dProperties {
                        alpha_mode: material.alpha_mode,
                        depth_bias: material.depth_bias,
                        mesh_pipeline_key_bits: mesh_pipeline_key_bits,
                    },
                },
            )
        },
        Err(AsBindGroupError::RetryNextUpdate) => {
            Err(PrepareAssetError::RetryNextUpdate(material))
        },
    }
}

/// The material cache after one preparation attempt lands on it: a success
/// stores the prepared form under the material's identifier, a retry leaves
/// the cache exactly as it was.
pub open spec fn spec_update_prepared(
    materials: Map<u64, PreparedMaterial2d>,
    id: u64,
    material: Material2d,
    binding: Result<PreparedBindGroup, AsBindGroupError>,
) -> Map<u64, PreparedMaterial2d> {
    match spec_prepare_asset(material, binding) {
        Ok(prepared) => materials.insert(id, prepared),
        Err(_) => materials,
    }
}

/// Runs one preparation attempt against the cache.
///
/// Returns the material to requeue when the device asked for a retry; the
/// cache is then untouched, so a stale prepared value is never overwritten
/// by a failed attempt.
pub fn update_prepared(
    materials: &mut RenderMaterials2d,
    id: u64,
    material: Material2d,
    binding: Result<PreparedBindGroup, AsBindGroupError>,
) -> (requeue: Option<Material2d>)
    ensures
        final(materials)@ == spec_update_prepared(old(materials)@, id, material, binding),
        binding is Ok ==> requeue is None && final(materials)@.contains_key(id),
        binding is Err ==> requeue == Some(material) && final(materials)@ == old(materials)@,
{
    match prepare_asset(material, binding) {
        Ok(prepared) => {
            materials.insert(id, prepared);
            None
        },
        Err(PrepareAssetError::RetryNextUpdate(source)) => Some(source),
    }
}

/// Law: preparation is idempotent. Preparing the same source material twice
/// with identical, ready binding outcomes yields prepared materials with
/// equal bind-group key, alpha mode, depth bias and pipeline-key bits.
pub proof fn lemma_preparation_idempotent(
    material: Material2d,
    first: Result<PreparedBindGroup, AsBindGroupError>,
    second: Result<PreparedBindGroup, AsBindGroupError>,
)
    requires
        first is Ok,
        second == first,
    ensures
        spec_prepare_asset(material, first) is Ok,
        spec_prepare_asset(material, second) is Ok,
        spec_prepare_asset(material, first)->Ok_0.key == spec_prepare_asset(
            material,
            second,
        )->Ok_0.key,
        spec_prepare_asset(material, first)->Ok_0.properties.alpha_mode == spec_prepare_asset(
            material,
            second,
        )->Ok_0.properties.alpha_mode,
        spec_prepare_asset(material, first)->Ok_0.properties.depth_bias == spec_prepare_asset(
            material,
            second,
        )->Ok_0.properties.depth_bias,
        spec_prepare_asset(material, first)->Ok_0.properties.mesh_pipeline_key_bits
            == spec_prepare_asset(material, second)->Ok_0.properties.mesh_pipeline_key_bits,
{
}

} // verus!
