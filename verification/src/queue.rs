//! Render-phase queuing: for one view, walk the visible entities and push a
//! draw item for each drawable one — into an opaque bin or the transparent
//! list by alpha mode — specializing pipelines through the memo cache on the
//! way.
//!
//! Entities with a missing instance-map entry, mesh instance, prepared
//! material or mesh are silently skipped for the frame; an entity whose
//! specialization is refused is skipped too, and reported to the caller so
//! the host can log the failure. Every lookup is redone from scratch next
//! frame.

use vstd::prelude::*;
use crate::extract::RenderMaterial2dInstances;
use crate::key::{
    spec_mesh_pipeline_key,
    spec_view_pipeline_key,
    mesh_pipeline_key,
    view_pipeline_key,
    DebandDither,
    Mesh2dPipelineKey,
    PrimitiveTopology,
    Tonemapping,
};
use crate::material::AlphaMode2d;
use crate::material::Material2d;
use crate::phase::{Opaque2dBinKey, OpaquePhase, OpaquePhaseItem, Transparent2d, TransparentPhase};
use crate::pipeline::{
    Material2dKey,
    Material2dPipeline,
    MeshVertexLayout,
    PipelineCache,
    PipelineCacheKey,
    SpecializedMeshPipelines,
    SpecializedMeshPipelineError,
};
use crate::prepare::{
    spec_update_prepared,
    AsBindGroupError,
    Material2dBindGroupId,
    PreparedBindGroup,
    PreparedMaterial2d,
    RenderMaterials2d,
};
use crate::table::IdTable;

verus! {

/// GPU-resident data of a mesh asset. A mesh whose GPU data is not resident
/// yet simply has no entry in the mesh table.
#[derive(Clone, Copy, Debug)]
pub struct RenderMesh {
    /// Primitive topology of the mesh.
    pub topology: PrimitiveTopology,
    /// The mesh's vertex-buffer layout.
    pub layout: MeshVertexLayout,
}

/// Table from mesh asset identifier to GPU mesh data.
pub type RenderMeshes = IdTable<RenderMesh>;

/// Per-frame render-world instance of one 2D mesh entity.
#[derive(Clone, Copy, Debug)]
pub struct RenderMesh2dInstance {
    /// Identifier of the mesh asset the entity draws.
    pub mesh_asset_id: u64,
    /// World-space depth of the entity's transform, in a monotone integer
    /// encoding chosen by the host. Depth bias is added on the encodings, so
    /// the host's encoding must make that addition mean what it intends.
    pub world_z: i32,
    /// The entity may take part in automatic batching.
    pub automatic_batching: bool,
    /// Bind-group identity seen last frame, for downstream batching.
    pub material_bind_group_id: Material2dBindGroupId,
}

/// Table from entity to its render-world mesh instance.
pub type RenderMesh2dInstances = IdTable<RenderMesh2dInstance>;

/// One view's settings and visible set for this frame.
#[derive(Clone, Debug)]
pub struct ExtractedView2d {
    /// MSAA sample count of the view.
    pub msaa_samples: u32,
    /// The view renders into an HDR target.
    pub hdr: bool,
    /// Tonemapping method configured on the view, if any.
    pub tonemapping: Option<Tonemapping>,
    /// Dither setting configured on the view, if any.
    pub dither: Option<DebandDither>,
    /// Entities visible in the view this frame.
    pub visible_entities: Vec<u64>,
}

/// Where queuing routes one entity.
#[derive(Clone, Copy, Debug, PartialEq, Eq, Structural)]
pub enum Route {
    /// A skip condition held; no item was pushed.
    Skipped,
    /// An item went into an opaque bin.
    Opaque,
    /// An item went into the transparent list.
    Transparent,
}

/// The read-only state queuing works from, as one value.
pub ghost struct QueueTables {
    /// Instance map: visible entity to material identifier.
    pub material_instances: Map<u64, u64>,
    /// Entity to render-world mesh instance, as of the start of queuing.
    pub mesh_instances: Map<u64, RenderMesh2dInstance>,
    /// Material identifier to prepared material.
    pub materials: Map<u64, PreparedMaterial2d>,
    /// Mesh asset identifier to GPU mesh data.
    pub meshes: Map<u64, RenderMesh>,
    /// The material kind's pipeline.
    pub pipeline: Material2dPipeline,
    /// The view part of the pipeline key.
    pub view_key: Mesh2dPipelineKey,
}

/// The cache key queuing computes for a drawable entity.
pub open spec fn spec_entity_cache_key(t: QueueTables, e: u64) -> PipelineCacheKey {
    let mat = t.materials[t.material_instances[e]];
    let mesh = t.meshes[t.mesh_instances[e].mesh_asset_id];
    PipelineCacheKey {
        vertex_layout: mesh.layout,
        mesh_key: spec_mesh_pipeline_key(
            t.view_key,
            mesh.topology,
            mat.properties.mesh_pipeline_key_bits,
        ),
        bind_group_data: mat.key,
    }
}

/// Whether an entity resolves through all four tables, so that queuing
/// computes a key and reaches specialization at all.
pub open spec fn spec_reaches_specialization(t: QueueTables, e: u64) -> bool {
    &&& t.material_instances.contains_key(e)
    &&& t.mesh_instances.contains_key(e)
    &&& t.materials.contains_key(t.material_instances[e])
    &&& t.meshes.contains_key(t.mesh_instances[e].mesh_asset_id)
}

/// Where queuing routes an entity: skipped when the instance map, the mesh
/// instance table, the prepared-material cache or the mesh table has no entry
/// for it, or when specialization is refused; otherwise by alpha mode.
pub open spec fn spec_route(t: QueueTables, e: u64) -> Route {
    if !spec_reaches_specialization(t, e) {
        Route::Skipped
    } else {
        let k = spec_entity_cache_key(t, e);
        if t.pipeline.spec_specialize(
            Material2dKey { mesh_key: k.mesh_key, bind_group_data: k.bind_group_data },
            k.vertex_layout,
        ) is Err {
            Route::Skipped
        } else if t.materials[t.material_instances[e]].properties.alpha_mode is Blend {
            Route::Transparent
        } else {
            Route::Opaque
        }
    }
}

/// The specialization failure an entity surfaces, if any: present exactly
/// when the entity reaches specialization and the key is refused.
pub open spec fn spec_spec_error(t: QueueTables, e: u64) -> Option<SpecializedMeshPipelineError> {
    if !spec_reaches_specialization(t, e) {
        None
    } else {
        let k = spec_entity_cache_key(t, e);
        match t.pipeline.spec_specialize(
            Material2dKey { mesh_key: k.mesh_key, bind_group_data: k.bind_group_data },
            k.vertex_layout,
        ) {
            Err(err) => Some(err),
            Ok(_) => None,
        }
    }
}

/// The opaque entry queued for a drawable opaque entity.
pub open spec fn spec_opaque_item(t: QueueTables, e: u64, pipeline_id: u64, draw_function: u64)
    -> OpaquePhaseItem {
    let mat = t.materials[t.material_instances[e]];
    let mi = t.mesh_instances[e];
    OpaquePhaseItem {
        key: Opaque2dBinKey {
            pipeline: pipeline_id,
            draw_function: draw_function,
            asset_id: mi.mesh_asset_id,
            material_bind_group_id: Some(mat.bind_group),
        },
        entity: e,
        batchable: mi.automatic_batching,
    }
}

/// The transparent item queued for a drawable blended entity: its sort key is
/// the instance's world depth plus the material's depth bias, added on the
/// integer depth encodings.
pub open spec fn spec_transparent_item(t: QueueTables, e: u64, pipeline_id: u64, draw_function: u64)
    -> Transparent2d {
    let mat = t.materials[t.material_instances[e]];
    let mi = t.mesh_instances[e];
    Transparent2d {
        entity: e,
        draw_function: draw_function,
        pipeline: pipeline_id,
        sort_key: (mi.world_z + mat.properties.depth_bias) as i64,
        batch_start: 0,
        batch_end: 1,
        extra_index: None,
    }
}

/// A mesh instance after queuing refreshed its bind-group identity.
pub open spec fn spec_refreshed(t: QueueTables, e: u64, inst: RenderMesh2dInstance)
    -> RenderMesh2dInstance {
    RenderMesh2dInstance {
        material_bind_group_id: Material2dBindGroupId(
            Some(t.materials[t.material_instances[e]].bind_group),
        ),
        ..inst
    }
}

/// How many of the visible entities are routed the given way.
pub open spec fn spec_count_route(t: QueueTables, vis: Seq<u64>, r: Route) -> nat
    decreases vis.len(),
{
    if vis.len() == 0 {
        0
    } else {
        spec_count_route(t, vis.drop_last(), r) + if spec_route(t, vis.last()) == r {
            1nat
        } else {
            0nat
        }
    }
}

/// The opaque entries queuing appends for the visible entities, in order:
/// exactly one per opaque-routed entity, carrying the handle the memo holds
/// for that entity's key.
pub open spec fn spec_queued_opaque(
    t: QueueTables,
    memo: SpecializedMeshPipelines,
    vis: Seq<u64>,
    draw_function: u64,
) -> Seq<OpaquePhaseItem>
    decreases vis.len(),
{
    if vis.len() == 0 {
        Seq::empty()
    } else {
        let prefix = spec_queued_opaque(t, memo, vis.drop_last(), draw_function);
        if spec_route(t, vis.last()) == Route::Opaque {
            prefix.push(
                spec_opaque_item(
                    t,
                    vis.last(),
                    memo.spec_memo(spec_entity_cache_key(t, vis.last()))->0,
                    draw_function,
                ),
            )
        } else {
            prefix
        }
    }
}

/// The transparent items queuing appends for the visible entities, in order:
/// exactly one per blend-routed entity, carrying the handle the memo holds
/// for that entity's key.
pub open spec fn spec_queued_transparent(
    t: QueueTables,
    memo: SpecializedMeshPipelines,
    vis: Seq<u64>,
    draw_function: u64,
) -> Seq<Transparent2d>
    decreases vis.len(),
{
    if vis.len() == 0 {
        Seq::empty()
    } else {
        let prefix = spec_queued_transparent(t, memo, vis.drop_last(), draw_function);
        if spec_route(t, vis.last()) == Route::Transparent {
            prefix.push(
                spec_transparent_item(
                    t,
                    vis.last(),
                    memo.spec_memo(spec_entity_cache_key(t, vis.last()))->0,
                    draw_function,
                ),
            )
        } else {
            prefix
        }
    }
}

/// The specialization failures queuing reports for the visible entities, in
/// order: exactly one per refused entity.
pub open spec fn spec_queued_errors(t: QueueTables, vis: Seq<u64>) -> Seq<
    (u64, SpecializedMeshPipelineError),
>
    decreases vis.len(),
{
    if vis.len() == 0 {
        Seq::empty()
    } else {
        let prefix = spec_queued_errors(t, vis.drop_last());
        match spec_spec_error(t, vis.last()) {
            Some(err) => prefix.push((vis.last(), err)),
            None => prefix,
        }
    }
}

proof fn lemma_queued_step(
    t: QueueTables,
    memo: SpecializedMeshPipelines,
    vis: Seq<u64>,
    i: int,
    draw_o: u64,
    draw_t: u64,
)
    requires
        0 <= i < vis.len(),
    ensures
        spec_queued_opaque(t, memo, vis.take(i + 1), draw_o) == if spec_route(t, vis[i])
            == Route::Opaque {
            spec_queued_opaque(t, memo, vis.take(i), draw_o).push(
                spec_opaque_item(t, vis[i], memo.spec_memo(spec_entity_cache_key(t, vis[i]))->0, draw_o),
            )
        } else {
            spec_queued_opaque(t, memo, vis.take(i), draw_o)
        },
        spec_queued_transparent(t, memo, vis.take(i + 1), draw_t) == if spec_route(t, vis[i])
            == Route::Transparent {
            spec_queued_transparent(t, memo, vis.take(i), draw_t).push(
                spec_transparent_item(t, vis[i], memo.spec_memo(spec_entity_cache_key(t, vis[i]))->0, draw_t),
            )
        } else {
            spec_queued_transparent(t, memo, vis.take(i), draw_t)
        },
        spec_queued_errors(t, vis.take(i + 1)) == match spec_spec_error(t, vis[i]) {
            Some(err) => spec_queued_errors(t, vis.take(i)).push((vis[i], err)),
            None => spec_queued_errors(t, vis.take(i)),
        },
{
    assert(vis.take(i + 1).drop_last() =~= vis.take(i));
    assert(vis.take(i + 1).last() == vis[i]);
}

/// The queued sequences depend on the memo only at the routed entities'
/// keys: growing the memo without touching those leaves them unchanged.
proof fn lemma_queued_stable(
    t: QueueTables,
    p1: SpecializedMeshPipelines,
    p2: SpecializedMeshPipelines,
    vis: Seq<u64>,
    draw_o: u64,
    draw_t: u64,
)
    requires
        forall|k: PipelineCacheKey|
            p1.spec_memo(k) is Some ==> #[trigger] p2.spec_memo(k) == p1.spec_memo(k),
        forall|x: int|
            0 <= x < vis.len() && spec_route(t, #[trigger] vis[x]) != Route::Skipped
                ==> p1.spec_memo(spec_entity_cache_key(t, vis[x])) is Some,
    ensures
        spec_queued_opaque(t, p1, vis, draw_o) == spec_queued_opaque(t, p2, vis, draw_o),
        spec_queued_transparent(t, p1, vis, draw_t) == spec_queued_transparent(t, p2, vis, draw_t),
    decreases vis.len(),
{
    if vis.len() > 0 {
        assert forall|x: int|
            0 <= x < vis.drop_last().len() && spec_route(t, #[trigger] vis.drop_last()[x])
                != Route::Skipped implies p1.spec_memo(
            spec_entity_cache_key(t, vis.drop_last()[x]),
        ) is Some by {
            assert(vis.drop_last()[x] == vis[x]);
        }
        lemma_queued_stable(t, p1, p2, vis.drop_last(), draw_o, draw_t);
        assert(vis.last() == vis[vis.len() - 1]);
        if spec_route(t, vis.last()) != Route::Skipped {
            assert(p1.spec_memo(spec_entity_cache_key(t, vis.last())) is Some);
        }
    }
}

/// The queued sequences are exactly as long as the route counts say.
proof fn lemma_queued_len(
    t: QueueTables,
    memo: SpecializedMeshPipelines,
    vis: Seq<u64>,
    draw_o: u64,
    draw_t: u64,
)
    ensures
        spec_queued_opaque(t, memo, vis, draw_o).len() == spec_count_route(t, vis, Route::Opaque),
        spec_queued_transparent(t, memo, vis, draw_t).len() == spec_count_route(
            t,
            vis,
            Route::Transparent,
        ),
    decreases vis.len(),
{
    if vis.len() > 0 {
        lemma_queued_len(t, memo, vis.drop_last(), draw_o, draw_t);
    }
}

proof fn lemma_queued_empty_instances(
    t: QueueTables,
    memo: SpecializedMeshPipelines,
    vis: Seq<u64>,
    draw_o: u64,
    draw_t: u64,
)
    requires
        t.material_instances == Map::<u64, u64>::empty(),
    ensures
        spec_queued_opaque(t, memo, vis, draw_o) == Seq::<OpaquePhaseItem>::empty(),
        spec_queued_transparent(t, memo, vis, draw_t) == Seq::<Transparent2d>::empty(),
        spec_queued_errors(t, vis) == Seq::<(u64, SpecializedMeshPipelineError)>::empty(),
        spec_count_route(t, vis, Route::Opaque) == 0,
        spec_count_route(t, vis, Route::Transparent) == 0,
    decreases vis.len(),
{
    if vis.len() > 0 {
        lemma_queued_empty_instances(t, memo, vis.drop_last(), draw_o, draw_t);
        assert(!t.material_instances.contains_key(vis.last()));
        assert(spec_route(t, vis.last()) == Route::Skipped);
        assert(spec_spec_error(t, vis.last()) is None);
    }
}

/// Every visible entity that reaches specialization already has its key
/// memoized: a frame in this state rebuilds nothing.
pub open spec fn spec_all_memoized(
    t: QueueTables,
    p: SpecializedMeshPipelines,
    vis: Seq<u64>,
) -> bool {
    forall|x: int|
        0 <= x < vis.len() && spec_reaches_specialization(t, #[trigger] vis[x]) ==> p.spec_memo(
            spec_entity_cache_key(t, vis[x]),
        ) is Some
}

proof fn lemma_prefix_reflexive<T>(s: Seq<T>)
    ensures
        s.is_prefix_of(s),
{
    assert(s.subrange(0, s.len() as int) =~= s);
}

proof fn lemma_prefix_transitive<T>(a: Seq<T>, b: Seq<T>, c: Seq<T>)
    requires
        a.is_prefix_of(b),
        b.is_prefix_of(c),
    ensures
        a.is_prefix_of(c),
{
    assert forall|i: int| 0 <= i < a.len() implies a[i] == c.subrange(0, a.len() as int)[i] by {
        assert(a[i] == b.subrange(0, a.len() as int)[i]);
        assert(b[i] == c.subrange(0, b.len() as int)[i]);
    }
    assert(a =~= c.subrange(0, a.len() as int));
}

proof fn lemma_prefix_index<T>(a: Seq<T>, b: Seq<T>, i: int)
    requires
        a.is_prefix_of(b),
        0 <= i < a.len(),
    ensures
        a[i] == b[i],
{
    assert(a[i] == b.subrange(0, a.len() as int)[i]);
}

/// Every memoized key would specialize successfully for this pipeline: the
/// cache only ever memoizes keys whose descriptor was built.
pub open spec fn memo_ok(p: SpecializedMeshPipelines, pipeline: Material2dPipeline) -> bool {
    forall|k: PipelineCacheKey|
        #[trigger] p.spec_memo(k) is Some ==> pipeline.spec_specialize(
            Material2dKey { mesh_key: k.mesh_key, bind_group_data: k.bind_group_data },
            k.vertex_layout,
        ) is Ok
}

/// Queues the draw items of one view, returning the specialization failures
/// so the host can log them.
///
/// Every visible entity is routed exactly one way — an opaque bin, the
/// transparent list, or a silent skip — and each phase receives exactly the
/// routed entities' items, in visible order, with the pipeline handle the
/// memo cache holds for the entity's key. Refused specializations are
/// reported per entity; the other skips are silent. Queued entities get
/// their mesh instance's bind-group identity refreshed; nothing else about
/// the mesh instances changes. The compiler queue only grows, each newly
/// memoized key's handle indexes a fresh descriptor holding that key's
/// specialized output, and when every reachable key is already memoized the
/// cache and the compiler queue are left untouched — the material's hook
/// never runs again for a memoized key.
///
/// The host runs this once per view and frame; each view owns its own pair
/// of phase containers. The memo cache must only hold keys this pipeline
/// accepts — which is how `SpecializedMeshPipelines::new` starts and how
/// `specialize` keeps it, so a cache used with one pipeline stays eligible.
#[verifier::rlimit(100)]
pub fn queue_material2d_meshes(
    draw_opaque_2d: u64,
    draw_transparent_2d: u64,
    material2d_pipeline: &Material2dPipeline,
    pipelines: &mut SpecializedMeshPipelines,
    pipeline_cache: &mut PipelineCache,
    render_meshes: &RenderMeshes,
    render_materials: &RenderMaterials2d,
    render_mesh_instances: &mut RenderMesh2dInstances,
    render_material_instances: &RenderMaterial2dInstances,
    view: &ExtractedView2d,
    opaque_phase: &mut OpaquePhase,
    transparent_phase: &mut TransparentPhase,
) -> (specialization_errors: Vec<(u64, SpecializedMeshPipelineError)>)
    requires
        memo_ok(*old(pipelines), *material2d_pipeline),
    ensures
        ({
            let t = QueueTables {
                material_instances: render_material_instances@,
                mesh_instances: old(render_mesh_instances)@,
                materials: render_materials@,
                meshes: render_meshes@,
                pipeline: *material2d_pipeline,
                view_key: spec_view_pipeline_key(
                    view.msaa_samples,
                    view.hdr,
                    view.tonemapping,
                    view.dither,
                ),
            };
            let vis = view.visible_entities@;
            let op0 = old(opaque_phase).items@;
            let tp0 = old(transparent_phase).items@;
            let op1 = final(opaque_phase).items@;
            let tp1 = final(transparent_phase).items@;
            &&& op1 == op0 + spec_queued_opaque(t, *final(pipelines), vis, draw_opaque_2d)
            &&& tp1 == tp0 + spec_queued_transparent(t, *final(pipelines), vis, draw_transparent_2d)
            &&& specialization_errors@ == spec_queued_errors(t, vis)
            &&& op0.is_prefix_of(op1)
            &&& tp0.is_prefix_of(tp1)
            &&& op1.len() == op0.len() + spec_count_route(t, vis, Route::Opaque)
            &&& tp1.len() == tp0.len() + spec_count_route(t, vis, Route::Transparent)
            &&& forall|x: int|
                0 <= x < vis.len() && spec_route(t, #[trigger] vis[x]) != Route::Skipped
                    ==> final(pipelines).spec_memo(spec_entity_cache_key(t, vis[x])) is Some
            &&& forall|k2: PipelineCacheKey|
                old(pipelines).spec_memo(k2) is Some ==> #[trigger] final(pipelines).spec_memo(k2)
                    == old(pipelines).spec_memo(k2)
            &&& memo_ok(*final(pipelines), *material2d_pipeline)
            &&& old(pipelines).spec_calls() <= final(pipelines).spec_calls()
            &&& old(pipeline_cache).descriptors@.is_prefix_of(final(pipeline_cache).descriptors@)
            &&& forall|k2: PipelineCacheKey|
                old(pipelines).spec_memo(k2) is None && #[trigger] final(pipelines).spec_memo(k2)
                    is Some ==> {
                    &&& old(pipeline_cache).descriptors@.len() <= final(pipelines).spec_memo(
                        k2,
                    )->0 < final(pipeline_cache).descriptors@.len()
                    &&& final(pipeline_cache).descriptors@[final(pipelines).spec_memo(k2)->0 as int]@
                        == material2d_pipeline.spec_specialize(
                        Material2dKey { mesh_key: k2.mesh_key, bind_group_data: k2.bind_group_data },
                        k2.vertex_layout,
                    )->Ok_0
                }
            &&& (spec_all_memoized(t, *old(pipelines), vis) ==> *final(pipelines) == *old(pipelines)
                && *final(pipeline_cache) == *old(pipeline_cache))
            &&& final(render_mesh_instances)@.dom() == t.mesh_instances.dom()
            &&& forall|e: u64|
                t.mesh_instances.contains_key(e) ==> {
                    ||| #[trigger] final(render_mesh_instances)@[e] == t.mesh_instances[e]
                    ||| (spec_route(t, e) != Route::Skipped && final(render_mesh_instances)@[e]
                        == spec_refreshed(t, e, t.mesh_instances[e]))
                }
            &&& forall|x: int|
                0 <= x < vis.len() && spec_route(t, #[trigger] vis[x]) != Route::Skipped
                    ==> final(render_mesh_instances)@[vis[x]] == spec_refreshed(
                    t,
                    vis[x],
                    t.mesh_instances[vis[x]],
                )
        }),
{
    let view_key = view_pipeline_key(view.msaa_samples, view.hdr, view.tonemapping, view.dither);
    let ghost t = QueueTables {
        material_instances: render_material_instances@,
        mesh_instances: render_mesh_instances@,
        materials: render_materials@,
        meshes: render_meshes@,
        pipeline: *material2d_pipeline,
        view_key: view_key,
    };
    let ghost vis = view.visible_entities@;
    let ghost op0 = opaque_phase.items@;
    let ghost tp0 = transparent_phase.items@;
    let mut specialization_errors: Vec<(u64, SpecializedMeshPipelineError)> = Vec::new();
    if render_material_instances.is_empty() {
        proof {
            lemma_queued_empty_instances(t, *pipelines, vis, draw_opaque_2d, draw_transparent_2d);
            assert(op0 + spec_queued_opaque(t, *pipelines, vis, draw_opaque_2d) =~= op0);
            assert(tp0 + spec_queued_transparent(t, *pipelines, vis, draw_transparent_2d) =~= tp0);
            assert(specialization_errors@ =~= spec_queued_errors(t, vis));
            assert(op0.is_prefix_of(op0));
            assert(tp0.is_prefix_of(tp0));
        }
        return specialization_errors;
    }
    let n = view.visible_entities.len();
    let mut i: usize = 0;
    while i < n
        invariant
            0 <= i <= n,
            n == vis.len(),
            vis == view.visible_entities@,
            t.material_instances == render_material_instances@,
            t.mesh_instances == old(render_mesh_instances)@,
            t.materials == render_materials@,
            t.meshes == render_meshes@,
            t.pipeline == *material2d_pipeline,
            t.view_key == view_key,
            op0 == old(opaque_phase).items@,
            tp0 == old(transparent_phase).items@,
            opaque_phase.items@ == op0 + spec_queued_opaque(
                t,
                *pipelines,
                vis.take(i as int),
                draw_opaque_2d,
            ),
            transparent_phase.items@ == tp0 + spec_queued_transparent(
                t,
                *pipelines,
                vis.take(i as int),
                draw_transparent_2d,
            ),
            specialization_errors@ == spec_queued_errors(t, vis.take(i as int)),
            forall|x: int|
                0 <= x < i && spec_route(t, #[trigger] vis[x]) != Route::Skipped
                    ==> pipelines.spec_memo(spec_entity_cache_key(t, vis[x])) is Some,
            forall|k2: PipelineCacheKey|
                old(pipelines).spec_memo(k2) is Some ==> #[trigger] pipelines.spec_memo(k2) == old(
                    pipelines,
                ).spec_memo(k2),
            memo_ok(*pipelines, *material2d_pipeline),
            old(pipelines).spec_calls() <= pipelines.spec_calls(),
            old(pipeline_cache).descriptors@.is_prefix_of(pipeline_cache.descriptors@),
            forall|k2: PipelineCacheKey|
                old(pipelines).spec_memo(k2) is None && #[trigger] pipelines.spec_memo(k2)
                    is Some ==> {
                    &&& old(pipeline_cache).descriptors@.len() <= pipelines.spec_memo(k2)->0
                        < pipeline_cache.descriptors@.len()
                    &&& pipeline_cache.descriptors@[pipelines.spec_memo(k2)->0 as int]@
                        == material2d_pipeline.spec_specialize(
                        Material2dKey { mesh_key: k2.mesh_key, bind_group_data: k2.bind_group_data },
                        k2.vertex_layout,
                    )->Ok_0
                },
            (spec_all_memoized(t, *old(pipelines), vis) ==> *pipelines == *old(pipelines)
                && *pipeline_cache == *old(pipeline_cache)),
            render_mesh_instances@.dom() == t.mesh_instances.dom(),
            forall|e: u64|
                t.mesh_instances.contains_key(e) ==> {
                    ||| #[trigger] render_mesh_instances@[e] == t.mesh_instances[e]
                    ||| (spec_route(t, e) != Route::Skipped && render_mesh_instances@[e]
                        == spec_refreshed(t, e, t.mesh_instances[e]))
                },
            forall|x: int|
                0 <= x < i && spec_route(t, #[trigger] vis[x]) != Route::Skipped
                    ==> render_mesh_instances@[vis[x]] == spec_refreshed(
                    t,
                    vis[x],
                    t.mesh_instances[vis[x]],
                ),
        decreases n - i,
    {
        let e = view.visible_entities[i];
        let ghost pre_pipelines = *pipelines;
        let ghost pre_cache = *pipeline_cache;
        match render_material_instances.get(e) {
            Some(material_asset_id_ref) => {
                let material_asset_id = *material_asset_id_ref;
                match render_mesh_instances.get(e) {
                    Some(mesh_instance_ref) => {
                        let mi = *mesh_instance_ref;
                        match render_materials.get(material_asset_id) {
                            Some(material_2d) => {
                                match render_meshes.get(mi.mesh_asset_id) {
                                    Some(mesh_ref) => {
                                        let mesh = *mesh_ref;
                                        proof {
                                            assert(mi.mesh_asset_id == t.mesh_instances[e].mesh_asset_id);
                                            assert(mi.automatic_batching == t.mesh_instances[e].automatic_batching);
                                            assert(mi.world_z == t.mesh_instances[e].world_z);
                                            assert(spec_reaches_specialization(t, e));
                                        }
                                        let mesh_key = mesh_pipeline_key(
                                            view_key,
                                            mesh.topology,
                                            material_2d.properties.mesh_pipeline_key_bits,
                                        );
                                        let key = Material2dKey {
                                            mesh_key: mesh_key,
                                            bind_group_data: material_2d.key,
                                        };
                                        let ghost ck = spec_entity_cache_key(t, e);
                                        let pipeline_id = pipelines.specialize(
                                            pipeline_cache,
                                            material2d_pipeline,
                                            key,
                                            mesh.layout,
                                        );
                                        proof {
                                            assert(ck == (PipelineCacheKey {
                                                vertex_layout: mesh.layout,
                                                mesh_key: key.mesh_key,
                                                bind_group_data: key.bind_group_data,
                                            }));
                                            if pre_pipelines.spec_memo(ck) is Some
                                                || t.pipeline.spec_specialize(key, mesh.layout) is Err {
                                                lemma_prefix_reflexive(pre_cache.descriptors@);
                                            }
                                            lemma_prefix_transitive(
                                                old(pipeline_cache).descriptors@,
                                                pre_cache.descriptors@,
                                                pipeline_cache.descriptors@,
                                            );
                                            assert forall|k2: PipelineCacheKey|
                                                old(pipelines).spec_memo(k2) is None
                                                    && #[trigger] pipelines.spec_memo(k2)
                                                    is Some implies {
                                                &&& old(pipeline_cache).descriptors@.len()
                                                    <= pipelines.spec_memo(k2)->0
                                                    < pipeline_cache.descriptors@.len()
                                                &&& pipeline_cache.descriptors@[pipelines.spec_memo(k2)->0 as int]@
                                                    == material2d_pipeline.spec_specialize(
                                                    Material2dKey {
                                                        mesh_key: k2.mesh_key,
                                                        bind_group_data: k2.bind_group_data,
                                                    },
                                                    k2.vertex_layout,
                                                )->Ok_0
                                            } by {
                                                let id = pipelines.spec_memo(k2)->0;
                                                if k2 == ck && pre_pipelines.spec_memo(ck) is None {
                                                    assert(id as int == pre_cache.descriptors@.len());
                                                    assert(pipeline_cache.descriptors@[id as int]
                                                        == pipeline_cache.descriptors@.last());
                                                } else {
                                                    assert(pipelines.spec_memo(k2) == pre_pipelines.spec_memo(k2));
                                                    lemma_prefix_index(
                                                        pre_cache.descriptors@,
                                                        pipeline_cache.descriptors@,
                                                        id as int,
                                                    );
                                                }
                                            }
                                            if spec_all_memoized(t, *old(pipelines), vis) {
                                                assert(vis[i as int] == e);
                                                assert(spec_reaches_specialization(t, vis[i as int]));
                                                assert(old(pipelines).spec_memo(ck) is Some);
                                                assert(pre_pipelines.spec_memo(ck) is Some);
                                            }
                                        }
                                        match pipeline_id {
                                            Ok(pid) => {
                                                proof {
                                                    assert(pipelines.spec_memo(ck) == Some(pid));
                                                    assert(t.pipeline.spec_specialize(key, mesh.layout) is Ok);
                                                    assert(spec_route(t, e) != Route::Skipped);
                                                    assert(spec_spec_error(t, e) is None);
                                                }
                                                let mut updated = mi;
                                                updated.material_bind_group_id =
                                                    material_2d.get_bind_group_id();
                                                render_mesh_instances.insert(e, updated);
                                                proof {
                                                    assert(updated == spec_refreshed(t, e, t.mesh_instances[e]));
                                                    assert(render_mesh_instances@.dom() =~= t.mesh_instances.dom());
                                                }
                                                match material_2d.properties.alpha_mode {
                                                    AlphaMode2d::Opaque => {
                                                        proof {
                                                            assert(spec_route(t, e) == Route::Opaque);
                                                        }
                                                        let bin_key = Opaque2dBinKey {
                                                            pipeline: pid,
                                                            draw_function: draw_opaque_2d,
                                                            asset_id: mi.mesh_asset_id,
                                                            material_bind_group_id:
                                                                material_2d.get_bind_group_id().0,
                                                        };
                                                        opaque_phase.add(
                                                            bin_key,
                                                            e,
                                                            mi.automatic_batching,
                                                        );
                                                        proof {
                                                            assert(opaque_phase.items@.last()
                                                                == spec_opaque_item(t, e, pid, draw_opaque_2d));
                                                        }
                                                    },
                                                    AlphaMode2d::Blend => {
                                                        proof {
                                                            assert(spec_route(t, e) == Route::Transparent);
                                                        }
                                                        let mesh_z = mi.world_z as i64;
                                                        let sort_key = mesh_z
                                                            + material_2d.properties.depth_bias as i64;
                                                        transparent_phase.add(
                                                            Transparent2d {
                                                                entity: e,
                                                                draw_function: draw_transparent_2d,
                                                                pipeline: pid,
                                                                sort_key: sort_key,
                                                                batch_start: 0,
                                                                batch_end: 1,
                                                                extra_index: None,
                                                            },
                                                        );
                                                        proof {
                                                            assert(transparent_phase.items@.last()
                                                                == spec_transparent_item(t, e, pid, draw_transparent_2d));
                                                        }
                                                    },
                                                }
                                            },
                                            Err(err) => {
                                                proof {
                                                    assert(t.pipeline.spec_specialize(key, mesh.layout) is Err);
                                                    assert(spec_route(t, e) == Route::Skipped);
                                                    assert(spec_spec_error(t, e) == Some(err));
                                                }
                                                specialization_errors.push((e, err));
                                            },
                                        }
                                    },
                                    None => {
                                        proof {
                                            assert(spec_route(t, e) == Route::Skipped);
                                            assert(spec_spec_error(t, e) is None);
                                        }
                                    },
                                }
                            },
                            None => {
                                proof {
                                    assert(spec_route(t, e) == Route::Skipped);
                                    assert(spec_spec_error(t, e) is None);
                                }
                            },
                        }
                    },
                    None => {
                        proof {
                            assert(spec_route(t, e) == Route::Skipped);
                            assert(spec_spec_error(t, e) is None);
                        }
                    },
                }
            },
            None => {
                proof {
                    assert(spec_route(t, e) == Route::Skipped);
                    assert(spec_spec_error(t, e) is None);
                }
            },
        }
        proof {
            assert forall|x: int|
                0 <= x < vis.take(i as int).len() && spec_route(t, #[trigger] vis.take(
                    i as int,
                )[x]) != Route::Skipped implies pre_pipelines.spec_memo(
                spec_entity_cache_key(t, vis.take(i as int)[x]),
            ) is Some by {
                assert(vis.take(i as int)[x] == vis[x]);
            }
            lemma_queued_stable(
                t,
                pre_pipelines,
                *pipelines,
                vis.take(i as int),
                draw_opaque_2d,
                draw_transparent_2d,
            );
            lemma_queued_step(t, *pipelines, vis, i as int, draw_opaque_2d, draw_transparent_2d);
        }
        i = i + 1;
    }
    proof {
        assert(vis.take(n as int) =~= vis);
        lemma_queued_len(t, *pipelines, vis, draw_opaque_2d, draw_transparent_2d);
        assert(op0.is_prefix_of(
            op0 + spec_queued_opaque(t, *pipelines, vis, draw_opaque_2d),
        )) by {
            let q = spec_queued_opaque(t, *pipelines, vis, draw_opaque_2d);
            assert((op0 + q).subrange(0, op0.len() as int) =~= op0);
        }
        assert(tp0.is_prefix_of(
            tp0 + spec_queued_transparent(t, *pipelines, vis, draw_transparent_2d),
        )) by {
            let q = spec_queued_transparent(t, *pipelines, vis, draw_transparent_2d);
            assert((tp0 + q).subrange(0, tp0.len() as int) =~= tp0);
        }
    }
    specialization_errors
}

/// Law: opaque/transparent partition. Every visible entity is routed exactly
/// one way, so the three route counts cover the visible set exactly once.
pub proof fn lemma_route_partition(t: QueueTables, vis: Seq<u64>)
    ensures
        spec_count_route(t, vis, Route::Skipped) + spec_count_route(t, vis, Route::Opaque)
            + spec_count_route(t, vis, Route::Transparent) == vis.len(),
    decreases vis.len(),
{
    if vis.len() > 0 {
        lemma_route_partition(t, vis.drop_last());
    }
}

/// Law: every routed visible entity's item stands in the queued sequence for
/// its phase, with the handle the memo holds for its key.
pub proof fn lemma_routed_entity_is_queued(
    t: QueueTables,
    memo: SpecializedMeshPipelines,
    vis: Seq<u64>,
    x: int,
    draw_o: u64,
    draw_t: u64,
)
    requires
        0 <= x < vis.len(),
    ensures
        spec_route(t, vis[x]) == Route::Opaque ==> spec_queued_opaque(t, memo, vis, draw_o)
            .contains(
            spec_opaque_item(t, vis[x], memo.spec_memo(spec_entity_cache_key(t, vis[x]))->0, draw_o),
        ),
        spec_route(t, vis[x]) == Route::Transparent ==> spec_queued_transparent(
            t,
            memo,
            vis,
            draw_t,
        ).contains(
            spec_transparent_item(
                t,
                vis[x],
                memo.spec_memo(spec_entity_cache_key(t, vis[x]))->0,
                draw_t,
            ),
        ),
    decreases vis.len(),
{
    if x == vis.len() - 1 {
        assert(vis.last() == vis[x]);
        if spec_route(t, vis[x]) == Route::Opaque {
            let q = spec_queued_opaque(t, memo, vis, draw_o);
            let item = spec_opaque_item(
                t,
                vis[x],
                memo.spec_memo(spec_entity_cache_key(t, vis[x]))->0,
                draw_o,
            );
            assert(q[q.len() - 1] == item);
        }
        if spec_route(t, vis[x]) == Route::Transparent {
            let q = spec_queued_transparent(t, memo, vis, draw_t);
            let item = spec_transparent_item(
                t,
                vis[x],
                memo.spec_memo(spec_entity_cache_key(t, vis[x]))->0,
                draw_t,
            );
            assert(q[q.len() - 1] == item);
        }
    } else {
        assert(vis.drop_last()[x] == vis[x]);
        lemma_routed_entity_is_queued(t, memo, vis.drop_last(), x, draw_o, draw_t);
        if spec_route(t, vis[x]) == Route::Opaque {
            let prefix = spec_queued_opaque(t, memo, vis.drop_last(), draw_o);
            let item = spec_opaque_item(
                t,
                vis[x],
                memo.spec_memo(spec_entity_cache_key(t, vis[x]))->0,
                draw_o,
            );
            let w = choose|w: int| 0 <= w < prefix.len() && prefix[w] == item;
            assert(spec_queued_opaque(t, memo, vis, draw_o)[w] == item);
        }
        if spec_route(t, vis[x]) == Route::Transparent {
            let prefix = spec_queued_transparent(t, memo, vis.drop_last(), draw_t);
            let item = spec_transparent_item(
                t,
                vis[x],
                memo.spec_memo(spec_entity_cache_key(t, vis[x]))->0,
                draw_t,
            );
            let w = choose|w: int| 0 <= w < prefix.len() && prefix[w] == item;
            assert(spec_queued_transparent(t, memo, vis, draw_t)[w] == item);
        }
    }
}

/// The bind group the material render command sets for a phase item's
/// entity: the prepared material's group when the instance map and the
/// material cache both resolve; no group — skip the command — otherwise.
pub fn material2d_bind_group(
    render_materials: &RenderMaterials2d,
    render_material_instances: &RenderMaterial2dInstances,
    entity: u64,
) -> (r: Option<u64>)
    ensures
        match r {
            Some(g) => render_material_instances@.contains_key(entity)
                && render_materials@.contains_key(render_material_instances@[entity]) && g
                == render_materials@[render_material_instances@[entity]].bind_group,
            None => !render_material_instances@.contains_key(entity)
                || !render_materials@.contains_key(render_material_instances@[entity]),
        },
{
    match render_material_instances.get(entity) {
        Some(material_asset_id) => {
            match render_materials.get(*material_asset_id) {
                Some(material_2d) => Some(material_2d.bind_group),
                None => None,
            }
        },
        None => None,
    }
}

/// Law: retry convergence. A material whose preparation was refused with a
/// retry on one frame leaves the cache untouched; when the next frame's
/// binding succeeds, the material is in the cache before that frame's
/// queuing, and a visible entity assigned to it — with its mesh present and
/// its specialization accepted — is routed to the phase its alpha mode
/// names, and its item stands in that frame's queued sequence: zero dropped
/// frames once ready.
pub proof fn lemma_retry_convergence(
    materials0: Map<u64, PreparedMaterial2d>,
    id: u64,
    material: Material2d,
    retry_binding: Result<PreparedBindGroup, AsBindGroupError>,
    ready_binding: Result<PreparedBindGroup, AsBindGroupError>,
    t: QueueTables,
    memo: SpecializedMeshPipelines,
    vis: Seq<u64>,
    x: int,
    draw_o: u64,
    draw_t: u64,
)
    requires
        retry_binding is Err,
        ready_binding is Ok,
        t.materials == spec_update_prepared(
            spec_update_prepared(materials0, id, material, retry_binding),
            id,
            material,
            ready_binding,
        ),
        0 <= x < vis.len(),
        t.material_instances.contains_key(vis[x]),
        t.material_instances[vis[x]] == id,
        t.mesh_instances.contains_key(vis[x]),
        t.meshes.contains_key(t.mesh_instances[vis[x]].mesh_asset_id),
        ({
            let k = spec_entity_cache_key(t, vis[x]);
            t.pipeline.spec_specialize(
                Material2dKey { mesh_key: k.mesh_key, bind_group_data: k.bind_group_data },
                k.vertex_layout,
            ) is Ok
        }),
    ensures
        spec_update_prepared(materials0, id, material, retry_binding) == materials0,
        t.materials.contains_key(id),
        spec_route(t, vis[x]) != Route::Skipped,
        material.alpha_mode is Blend ==> spec_route(t, vis[x]) == Route::Transparent
            && spec_queued_transparent(t, memo, vis, draw_t).contains(
            spec_transparent_item(
                t,
                vis[x],
                memo.spec_memo(spec_entity_cache_key(t, vis[x]))->0,
                draw_t,
            ),
        ),
        material.alpha_mode is Opaque ==> spec_route(t, vis[x]) == Route::Opaque
            && spec_queued_opaque(t, memo, vis, draw_o).contains(
            spec_opaque_item(t, vis[x], memo.spec_memo(spec_entity_cache_key(t, vis[x]))->0, draw_o),
        ),
{
    assert(t.materials[id].properties.alpha_mode == material.alpha_mode);
    lemma_routed_entity_is_queued(t, memo, vis, x, draw_o, draw_t);
}

} // verus!
