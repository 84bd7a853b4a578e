//! Pipeline specialization and its process-lifetime cache.
//!
//! Specialization builds a pipeline descriptor from the composite key: the
//! base mesh descriptor, the material's shader overrides, the fixed
//! three-group bind layout, then the material's customization hook. The cache
//! memoizes compiled pipeline handles per (key, layout); a hit returns the
//! stored handle without rebuilding anything.

use vstd::prelude::*;
use crate::key::Mesh2dPipelineKey;
use crate::material::{ShaderRef, SpecializeHook};

verus! {

/// Vertex-buffer layout of a mesh, as the base pipeline sees it: its
/// identity, and whether it carries the vertex attributes the base pipeline
/// binds. A layout without them makes the base specializer fail.
#[derive(Clone, Copy, Debug, PartialEq, Eq, Hash, Structural)]
pub struct MeshVertexLayout {
    /// Identifier of the layout.
    pub id: u64,
    /// The layout carries every vertex attribute the base pipeline binds.
    pub has_required_attributes: bool,
}

/// Key under which a specialized pipeline is cached: the composite pipeline
/// key, the material's bind-group sub-key and the mesh vertex layout.
#[derive(Clone, Copy, Debug, PartialEq, Eq, Hash, Structural)]
pub struct PipelineCacheKey {
    /// The mesh's vertex-buffer layout.
    pub vertex_layout: MeshVertexLayout,
    /// The composite mesh pipeline key.
    pub mesh_key: Mesh2dPipelineKey,
    /// The material's bind-group sub-key.
    pub bind_group_data: u64,
}

/// Key identifying a material-specialized pipeline: the mesh portion plus the
/// material's bind-group sub-key.
#[derive(Clone, Copy, Debug, PartialEq, Eq, Hash, Structural)]
pub struct Material2dKey {
    /// The mesh portion of the key.
    pub mesh_key: Mesh2dPipelineKey,
    /// The material's bind-group sub-key.
    pub bind_group_data: u64,
}

/// Specialization failed for one key; the affected entity is skipped for the
/// frame and the key is simply recomputed next frame.
#[derive(Clone, Copy, Debug, PartialEq, Eq, Structural)]
pub enum SpecializedMeshPipelineError {
    /// The mesh's vertex-buffer layout lacks an attribute the base pipeline
    /// binds, so the base specializer could derive no descriptor.
    MissingVertexAttribute,
    /// The material's customization hook refused the generated descriptor.
    SpecializationRefused,
}

/// Mathematical form of a pipeline descriptor.
pub struct PipelineDescriptorSpec {
    /// Shader handle of the vertex stage.
    pub vertex_shader: u64,
    /// Shader handle of the fragment stage.
    pub fragment_shader: u64,
    /// Shader defines added by the material's hook.
    pub shader_defs: Seq<u64>,
    /// Bind group layouts, in group order.
    pub layout: Seq<u64>,
    /// Identifier of the mesh's vertex-buffer layout.
    pub vertex_layout: u64,
    /// The key the descriptor was specialized for.
    pub key: Mesh2dPipelineKey,
}

/// Descriptor for building one specialized GPU pipeline object.
#[derive(Clone, Debug)]
pub struct RenderPipelineDescriptor {
    /// Shader handle of the vertex stage.
    pub vertex_shader: u64,
    /// Shader handle of the fragment stage.
    pub fragment_shader: u64,
    /// Shader defines added by the material's hook.
    pub shader_defs: Vec<u64>,
    /// Bind group layouts, in group order.
    pub layout: Vec<u64>,
    /// Identifier of the mesh's vertex-buffer layout.
    pub vertex_layout: u64,
    /// The key the descriptor was specialized for.
    pub key: Mesh2dPipelineKey,
}

impl View for RenderPipelineDescriptor {
    type V = PipelineDescriptorSpec;

    open spec fn view(&self) -> PipelineDescriptorSpec {
        PipelineDescriptorSpec {
            vertex_shader: self.vertex_shader,
            fragment_shader: self.fragment_shader,
            shader_defs: self.shader_defs@,
            layout: self.layout@,
            vertex_layout: self.vertex_layout,
            key: self.key,
        }
    }
}

/// The base 2D mesh pipeline: default shaders and the view and mesh bind
/// group layouts the engine provides.
#[derive(Clone, Copy, Debug)]
pub struct Mesh2dPipeline {
    /// Layout of the view bindings (group 0).
    pub view_layout: u64,
    /// Layout of the mesh bindings (group 1).
    pub mesh_layout: u64,
    /// The engine's default mesh vertex shader.
    pub default_vertex_shader: u64,
    /// The engine's default mesh fragment shader.
    pub default_fragment_shader: u64,
}

impl Mesh2dPipeline {
    /// The outcome of the base mesh pipeline on the mesh portion of a key: a
    /// descriptor, or a refusal when the vertex layout lacks an attribute the
    /// base pipeline binds.
    pub open spec fn spec_specialize(self, key: Mesh2dPipelineKey, layout: MeshVertexLayout)
        -> Result<PipelineDescriptorSpec, SpecializedMeshPipelineError> {
        if !layout.has_required_attributes {
            Err(SpecializedMeshPipelineError::MissingVertexAttribute)
        } else {
            Ok(
                PipelineDescriptorSpec {
                    vertex_shader: self.default_vertex_shader,
                    fragment_shader: self.default_fragment_shader,
                    shader_defs: Seq::empty(),
                    layout: seq![self.view_layout, self.mesh_layout],
                    vertex_layout: layout.id,
                    key: key,
                },
            )
        }
    }

    /// Derives the base descriptor from the mesh portion of the key, or
    /// reports the missing vertex attribute.
    pub fn specialize(&self, key: Mesh2dPipelineKey, layout: MeshVertexLayout) -> (r: Result<
        RenderPipelineDescriptor,
        SpecializedMeshPipelineError,
    >)
        ensures
            ({
                let s = self.spec_specialize(key, layout);
                &&& r is Ok <==> s is Ok
                &&& r is Ok ==> r->Ok_0@ == s->Ok_0
                &&& r is Err ==> r->Err_0 == s->Err_0
            }),
    {
        if !layout.has_required_attributes {
            return Err(SpecializedMeshPipelineError::MissingVertexAttribute);
        }
        let mut groups: Vec<u64> = Vec::new();
        groups.push(self.view_layout);
        groups.push(self.mesh_layout);
        let d = RenderPipelineDescriptor {
            vertex_shader: self.default_vertex_shader,
            fragment_shader: self.default_fragment_shader,
            shader_defs: Vec::new(),
            layout: groups,
            vertex_layout: layout.id,
            key: key,
        };
        proof {
            assert(d@.shader_defs =~= Seq::<u64>::empty());
            assert(d@.layout =~= seq![self.view_layout, self.mesh_layout]);
        }
        Ok(d)
    }
}

/// What a material's customization hook does to a generated descriptor.
pub open spec fn spec_apply_hook(hook: SpecializeHook, d: PipelineDescriptorSpec) -> Result<
    PipelineDescriptorSpec,
    SpecializedMeshPipelineError,
> {
    match hook {
        SpecializeHook::Passthrough => Ok(d),
        SpecializeHook::AddShaderDefs(defs) => Ok(
            PipelineDescriptorSpec { shader_defs: d.shader_defs + defs@, ..d },
        ),
        SpecializeHook::Reject => Err(SpecializedMeshPipelineError::SpecializationRefused),
    }
}

/// Render pipeline data for one material kind: the base mesh pipeline, the
/// material bind group layout, resolved shader overrides and the kind's
/// customization hook.
#[derive(Clone, Debug)]
pub struct Material2dPipeline {
    /// The base 2D mesh pipeline.
    pub mesh2d_pipeline: Mesh2dPipeline,
    /// Layout of the material bindings (group 2).
    pub material2d_layout: u64,
    /// Vertex shader override, when the material kind declared one.
    pub vertex_shader: Option<u64>,
    /// Fragment shader override, when the material kind declared one.
    pub fragment_shader: Option<u64>,
    /// The material kind's customization hook.
    pub hook: SpecializeHook,
}

/// The shader handle a material's choice resolves to: none for the engine
/// default, the handle itself for a loaded shader, and the handle the asset
/// loader returned for a path.
pub open spec fn spec_resolve_shader_ref(shader: ShaderRef, loaded_path_handle: u64) -> Option<
    u64,
> {
    match shader {
        ShaderRef::EngineDefault => None,
        ShaderRef::Handle(h) => Some(h),
        ShaderRef::Path(_) => Some(loaded_path_handle),
    }
}

impl Material2dPipeline {
    /// Builds the pipeline data for one material kind. The host resolves
    /// shader paths through its asset loader and hands the resulting handles
    /// in; the choice among default, handle and path is made here.
    pub fn new(
        mesh2d_pipeline: Mesh2dPipeline,
        material2d_layout: u64,
        vertex_shader: &ShaderRef,
        fragment_shader: &ShaderRef,
        loaded_vertex_path: u64,
        loaded_fragment_path: u64,
        hook: SpecializeHook,
    ) -> (r: Self)
        ensures
            r.mesh2d_pipeline == mesh2d_pipeline,
            r.material2d_layout == material2d_layout,
            r.vertex_shader == spec_resolve_shader_ref(*vertex_shader, loaded_vertex_path),
            r.fragment_shader == spec_resolve_shader_ref(*fragment_shader, loaded_fragment_path),
            r.hook == hook,
    {
        let resolved_vertex = match vertex_shader {
            ShaderRef::EngineDefault => None,
            ShaderRef::Handle(h) => Some(*h),
            ShaderRef::Path(_) => Some(loaded_vertex_path),
        };
        let resolved_fragment = match fragment_shader {
            ShaderRef::EngineDefault => None,
            ShaderRef::Handle(h) => Some(*h),
            ShaderRef::Path(_) => Some(loaded_fragment_path),
        };
        Material2dPipeline {
            mesh2d_pipeline: mesh2d_pipeline,
            material2d_layout: material2d_layout,
            vertex_shader: resolved_vertex,
            fragment_shader: resolved_fragment,
            hook: hook,
        }
    }

    /// The specialized descriptor for a key: base descriptor (or its
    /// failure, propagated), shader overrides applied, bind group layouts set
    /// to exactly view, mesh and material bindings in that order, then the
    /// material's hook.
    pub open spec fn spec_specialize(self, key: Material2dKey, layout: MeshVertexLayout) -> Result<
        PipelineDescriptorSpec,
        SpecializedMeshPipelineError,
    > {
        match self.mesh2d_pipeline.spec_specialize(key.mesh_key, layout) {
            Err(e) => Err(e),
            Ok(base) => {
                let d = PipelineDescriptorSpec {
                    vertex_shader: if self.vertex_shader is Some {
                        self.vertex_shader->0
                    } else {
                        base.vertex_shader
                    },
                    fragment_shader: if self.fragment_shader is Some {
                        self.fragment_shader->0
                    } else {
                        base.fragment_shader
                    },
                    layout: seq![
                        self.mesh2d_pipeline.view_layout,
                        self.mesh2d_pipeline.mesh_layout,
                        self.material2d_layout,
                    ],
                    ..base
                };
                spec_apply_hook(self.hook, d)
            },
        }
    }

    /// Builds the specialized descriptor for a key, or reports the base
    /// specializer's or the hook's refusal.
    pub fn specialize(&self, key: Material2dKey, layout: MeshVertexLayout) -> (r: Result<
        RenderPipelineDescriptor,
        SpecializedMeshPipelineError,
    >)
        ensures
            ({
                let s = self.spec_specialize(key, layout);
                &&& r is Ok <==> s is Ok
                &&& r is Ok ==> r->Ok_0@ == s->Ok_0
                &&& r is Err ==> r->Err_0 == s->Err_0
            }),
    {
        let mut d = match self.mesh2d_pipeline.specialize(key.mesh_key, layout) {
            Ok(base) => base,
            Err(e) => {
                return Err(e);
            },
        };
        match self.vertex_shader {
            Some(shader) => {
                d.vertex_shader = shader;
            },
            None => {},
        }
        match self.fragment_shader {
            Some(shader) => {
                d.fragment_shader = shader;
            },
            None => {},
        }
        let mut groups: Vec<u64> = Vec::new();
        groups.push(self.mesh2d_pipeline.view_layout);
        groups.push(self.mesh2d_pipeline.mesh_layout);
        groups.push(self.material2d_layout);
        d.layout = groups;
        proof {
            assert(d@.layout =~= seq![
                self.mesh2d_pipeline.view_layout,
                self.mesh2d_pipeline.mesh_layout,
                self.material2d_layout,
            ]);
        }
        let ghost with_shaders = d@;
        match &self.hook {
            SpecializeHook::Passthrough => Ok(d),
            SpecializeHook::AddShaderDefs(defs) => {
                let ghost base_defs = d.shader_defs@;
                let n = defs.len();
                let mut i: usize = 0;
                while i < n
                    invariant
                        n == defs@.len(),
                        i <= n,
                        d@ == (PipelineDescriptorSpec {
                            shader_defs: base_defs + defs@.take(i as int),
                            ..with_shaders
                        }),
                        base_defs == with_shaders.shader_defs,
                    decreases n - i,
                {
                    d.shader_defs.push(defs[i]);
                    proof {
                        assert(defs@.take(i + 1) =~= defs@.take(i as int).push(defs@[i as int]));
                        assert(base_defs + defs@.take(i + 1) =~= (base_defs + defs@.take(i as int)).push(
                            defs@[i as int],
                        ));
                    }
                    i = i + 1;
                }
                proof {
                    assert(defs@.take(n as int) =~= defs@);
                    assert(base_defs + defs@ =~= with_shaders.shader_defs + defs@);
                }
                Ok(d)
            },
            SpecializeHook::Reject => Err(SpecializedMeshPipelineError::SpecializationRefused),
        }
    }
}

/// The memo a sequence of cache bindings describes, later bindings winning.
spec fn memo_of(s: Seq<(PipelineCacheKey, u64)>, k: PipelineCacheKey) -> Option<u64>
    decreases s.len(),
{
    if s.len() == 0 {
        None
    } else if s.last().0 == k {
        Some(s.last().1)
    } else {
        memo_of(s.drop_last(), k)
    }
}

proof fn lemma_memo_absent(s: Seq<(PipelineCacheKey, u64)>, k: PipelineCacheKey)
    requires
        forall|j: int| 0 <= j < s.len() ==> (#[trigger] s[j]).0 != k,
    ensures
        memo_of(s, k) is None,
    decreases s.len(),
{
    if s.len() > 0 {
        assert forall|j: int| 0 <= j < s.drop_last().len() implies (#[trigger] s.drop_last()[j]).0
            != k by {
            assert(s.drop_last()[j] == s[j]);
        }
        lemma_memo_absent(s.drop_last(), k);
        assert(s.last() == s[s.len() - 1]);
    }
}

proof fn lemma_memo_last_match(s: Seq<(PipelineCacheKey, u64)>, i: int, k: PipelineCacheKey)
    requires
        0 <= i < s.len(),
        s[i].0 == k,
        forall|j: int| i < j < s.len() ==> (#[trigger] s[j]).0 != k,
    ensures
        memo_of(s, k) == Some(s[i].1),
    decreases s.len(),
{
    if i == s.len() - 1 {
        assert(s.last() == s[i]);
    } else {
        assert(s.drop_last()[i] == s[i]);
        assert forall|j: int| i < j < s.drop_last().len() implies (#[trigger] s.drop_last()[j]).0
            != k by {
            assert(s.drop_last()[j] == s[j]);
        }
        lemma_memo_last_match(s.drop_last(), i, k);
        assert(s.last() == s[s.len() - 1]);
        assert(s.last().0 != k);
    }
}

proof fn lemma_memo_push(s: Seq<(PipelineCacheKey, u64)>, k: PipelineCacheKey, id: u64)
    ensures
        memo_of(s.push((k, id)), k) == Some(id),
        forall|k2: PipelineCacheKey| k2 != k ==> #[trigger] memo_of(s.push((k, id)), k2) == memo_of(
            s,
            k2,
        ),
{
    assert(s.push((k, id)).drop_last() =~= s);
    assert(s.push((k, id)).last() == (k, id));
}

/// The external pipeline compiler's queue: descriptors handed over for
/// construction, a handle for each. The handle is the descriptor's position,
/// so equal handles mean one constructed pipeline object.
pub struct PipelineCache {
    /// Descriptors queued for construction, in hand-over order.
    pub descriptors: Vec<RenderPipelineDescriptor>,
}

impl PipelineCache {
    /// An empty compiler queue.
    pub fn new() -> (r: Self)
        ensures
            r.descriptors@.len() == 0,
    {
        PipelineCache { descriptors: Vec::new() }
    }

    /// Queues a descriptor and returns the handle of the pipeline object that
    /// will be built from it.
    pub fn queue_render_pipeline(&mut self, d: RenderPipelineDescriptor) -> (id: u64)
        ensures
            id as int == old(self).descriptors@.len(),
            final(self).descriptors@ == old(self).descriptors@.push(d),
    {
        let id = self.descriptors.len() as u64;
        self.descriptors.push(d);
        id
    }
}

/// Saturating counter step for the build counter.
pub open spec fn bump(c: u64) -> u64 {
    if c == u64::MAX {
        c
    } else {
        (c + 1) as u64
    }
}

/// Memo table from (pipeline key, material sub-key, vertex layout) to the
/// compiled pipeline handle. Entries are never evicted: the cache lives for
/// the process lifetime of the render subsystem.
pub struct SpecializedMeshPipelines {
    entries: Vec<(PipelineCacheKey, u64)>,
    specialize_calls: u64,
}

impl SpecializedMeshPipelines {
    /// The handle memoized for a key, if any.
    pub closed spec fn spec_memo(&self, k: PipelineCacheKey) -> Option<u64> {
        memo_of(self.entries@, k)
    }

    /// How many times a descriptor was built — that is, how many times the
    /// material's customization hook ran. Cache hits leave it unchanged.
    pub closed spec fn spec_calls(&self) -> u64 {
        self.specialize_calls
    }

    /// The build counter, for observation.
    pub fn calls(&self) -> (c: u64)
        ensures
            c == self.spec_calls(),
    {
        self.specialize_calls
    }

    /// An empty memo table.
    pub fn new() -> (r: Self)
        ensures
            forall|k: PipelineCacheKey| #[trigger] r.spec_memo(k) is None,
            r.spec_calls() == 0,
    {
        let r = SpecializedMeshPipelines { entries: Vec::new(), specialize_calls: 0 };
        proof {
            assert forall|k: PipelineCacheKey| #[trigger] r.spec_memo(k) is None by {
                lemma_memo_absent(r.entries@, k);
            }
        }
        r
    }

    /// The memoized handle for a key, if there is one.
    fn find(&self, k: PipelineCacheKey) -> (r: Option<u64>)
        ensures
            r == self.spec_memo(k),
    {
        let ghost s0 = self.entries@;
        let mut i: usize = self.entries.len();
        while i > 0
            invariant
                self.entries@ == s0,
                i <= s0.len(),
                forall|j: int| i <= j < s0.len() ==> (#[trigger] s0[j]).0 != k,
            decreases i,
        {
            i = i - 1;
            if self.entries[i].0 == k {
                proof {
                    lemma_memo_last_match(s0, i as int, k);
                }
                return Some(self.entries[i].1);
            }
        }
        proof {
            lemma_memo_absent(s0, k);
        }
        None
    }

    /// Looks the key up, building and memoizing the pipeline on a miss.
    ///
    /// A hit returns the stored handle and changes nothing at all — in
    /// particular the material's hook does not run again. A miss builds the
    /// descriptor (running the hook once), queues it with the compiler and
    /// memoizes the fresh handle; a refused descriptor memoizes nothing, so
    /// the key is retried whenever it is next requested.
    pub fn specialize(
        &mut self,
        cache: &mut PipelineCache,
        pipeline: &Material2dPipeline,
        key: Material2dKey,
        layout: MeshVertexLayout,
    ) -> (r: Result<u64, SpecializedMeshPipelineError>)
        ensures
            ({
                let k = PipelineCacheKey {
                    vertex_layout: layout,
                    mesh_key: key.mesh_key,
                    bind_group_data: key.bind_group_data,
                };
                &&& (old(self).spec_memo(k) is Some ==> {
                    &&& r is Ok
                    &&& r->Ok_0 == old(self).spec_memo(k)->0
                    &&& *final(self) == *old(self)
                    &&& *final(cache) == *old(cache)
                })
                &&& (old(self).spec_memo(k) is None && pipeline.spec_specialize(key, layout)
                    is Ok ==> {
                    &&& r is Ok
                    &&& r->Ok_0 as int == old(cache).descriptors@.len()
                    &&& final(cache).descriptors@.len() == old(cache).descriptors@.len() + 1
                    &&& old(cache).descriptors@.is_prefix_of(final(cache).descriptors@)
                    &&& final(cache).descriptors@.last()@ == pipeline.spec_specialize(
                        key,
                        layout,
                    )->Ok_0
                    &&& final(self).spec_memo(k) == Some(r->Ok_0)
                    &&& final(self).spec_calls() == bump(old(self).spec_calls())
                })
                &&& (old(self).spec_memo(k) is None && pipeline.spec_specialize(key, layout)
                    is Err ==> {
                    &&& r == Err::<u64, SpecializedMeshPipelineError>(
                        pipeline.spec_specialize(key, layout)->Err_0,
                    )
                    &&& *final(cache) == *old(cache)
                    &&& final(self).spec_memo(k) is None
                    &&& final(self).spec_calls() == bump(old(self).spec_calls())
                })
                &&& forall|k2: PipelineCacheKey|
                    old(self).spec_memo(k2) matches Some(id2) ==> #[trigger] final(self).spec_memo(
                        k2,
                    ) == Some(id2)
                &&& forall|k2: PipelineCacheKey|
                    k2 != k ==> #[trigger] final(self).spec_memo(k2) == old(self).spec_memo(k2)
            }),
    {
        let k = PipelineCacheKey {
            vertex_layout: layout,
            mesh_key: key.mesh_key,
            bind_group_data: key.bind_group_data,
        };
        let ghost s0 = self.entries@;
        match self.find(k) {
            Some(found) => {
                return Ok(found);
            },
            None => {},
        }
        if self.specialize_calls < u64::MAX {
            self.specialize_calls = self.specialize_calls + 1;
        }
        match pipeline.specialize(key, layout) {
            Ok(d) => {
                let id = cache.queue_render_pipeline(d);
                self.entries.push((k, id));
                proof {
                    lemma_memo_push(s0, k, id);
                }
                Ok(id)
            },
            Err(e) => Err(e),
        }
    }
}

} // verus!
