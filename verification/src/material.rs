//! The material contract, in registry form.
//!
//! A material is a plain record of the capabilities a material kind provides:
//! shader choices, alpha mode, depth bias, a bind-group sub-key and the
//! pipeline-customization hook. The GPU bind-group derivation itself belongs
//! to the device context; its outcome is handed to preparation as a value.

use vstd::prelude::*;

verus! {

/// How a 2D material's base colour alpha channel is used for transparency.
#[derive(Clone, Copy, Debug, PartialEq, Eq, Hash, Structural)]
pub enum AlphaMode2d {
    /// Alpha is overridden to fully opaque.
    Opaque,
    /// Standard alpha blending with the colour behind the fragment.
    Blend,
}

/// A material's choice of shader for one stage.
#[derive(Clone, Debug)]
pub enum ShaderRef {
    /// Use the engine's default shader for the stage.
    EngineDefault,
    /// A shader asset already loaded, by handle.
    Handle(u64),
    /// A shader asset named by path; the host's asset loader resolves it.
    Path(String),
}

/// The material's pipeline-customization hook, as data: the descriptor
/// changes a material kind applies, or its refusal.
#[derive(Clone, Debug)]
pub enum SpecializeHook {
    /// The default hook: leave the descriptor as generated.
    Passthrough,
    /// Append these shader defines to the generated descriptor.
    AddShaderDefs(Vec<u64>),
    /// Refuse the descriptor: pipeline creation for the key is aborted.
    Reject,
}

/// A source material: the author-facing value a host assigns to entities.
/// `Default` gives the contract's documented defaults: engine-default
/// shaders, opaque, no depth bias, the no-op hook.
#[derive(Clone, Debug)]
pub struct Material2d {
    /// Vertex shader choice of the material's kind.
    pub vertex_shader: ShaderRef,
    /// Fragment shader choice of the material's kind.
    pub fragment_shader: ShaderRef,
    /// How the material's alpha channel is used.
    pub alpha_mode: AlphaMode2d,
    /// Bias added to the transparent sort key, in depth units.
    pub depth_bias: i32,
    /// Bind-group sub-key: equal values may share a specialized pipeline.
    pub bind_group_data: u64,
    /// The pipeline-customization hook of the material's kind.
    pub hook: SpecializeHook,
}

impl Default for Material2d {
    /// A material that overrides nothing.
    fn default() -> (r: Self)
        ensures
            r.vertex_shader is EngineDefault,
            r.fragment_shader is EngineDefault,
            r.alpha_mode is Opaque,
            r.depth_bias == 0,
            r.bind_group_data == 0,
            r.hook is Passthrough,
    {
        Material2d {
            vertex_shader: ShaderRef::EngineDefault,
            fragment_shader: ShaderRef::EngineDefault,
            alpha_mode: AlphaMode2d::Opaque,
            depth_bias: 0,
            bind_group_data: 0,
            hook: SpecializeHook::Passthrough,
        }
    }
}

} // verus!
