use mesh2d_material::extract::{extract_material_meshes_2d, ExtractedMaterialEntity};
use mesh2d_material::key::{
    alpha_mode_pipeline_key, mesh_pipeline_key, tonemapping_pipeline_key, view_pipeline_key,
    DebandDither, PrimitiveTopology, Tonemapping,
};
use mesh2d_material::material::{AlphaMode2d, Material2d, ShaderRef, SpecializeHook};
use mesh2d_material::phase::{OpaquePhase, Transparent2d, TransparentPhase};
use mesh2d_material::pipeline::{
    Material2dKey, Material2dPipeline, Mesh2dPipeline, MeshVertexLayout, PipelineCache,
    SpecializedMeshPipelines, SpecializedMeshPipelineError,
};
use mesh2d_material::prepare::{
    prepare_asset, update_prepared, AsBindGroupError, PrepareAssetError, PreparedBindGroup,
};
use mesh2d_material::queue::{
    material2d_bind_group, queue_material2d_meshes, ExtractedView2d, RenderMesh,
    RenderMesh2dInstance,
};
use mesh2d_material::table::IdTable;

/// Monotone integer encoding of an f32 depth: larger floats map to larger
/// integers, so integer order is float order.
fn depth_key(z: f32) -> i32 {
    let b = z.to_bits() as i32;
    b ^ ((b >> 31) as u32 >> 1) as i32
}

fn material(alpha_mode: AlphaMode2d, depth_bias: i32, bind_group_data: u64) -> Material2d {
    Material2d {
        vertex_shader: ShaderRef::EngineDefault,
        fragment_shader: ShaderRef::EngineDefault,
        alpha_mode,
        depth_bias,
        bind_group_data,
        hook: SpecializeHook::Passthrough,
    }
}

fn base_mesh_pipeline() -> Mesh2dPipeline {
    Mesh2dPipeline {
        view_layout: 100,
        mesh_layout: 101,
        default_vertex_shader: 200,
        default_fragment_shader: 201,
    }
}

fn material_pipeline(hook: SpecializeHook) -> Material2dPipeline {
    Material2dPipeline::new(
        base_mesh_pipeline(),
        102,
        &ShaderRef::EngineDefault,
        &ShaderRef::EngineDefault,
        0,
        0,
        hook,
    )
}

fn layout(id: u64) -> MeshVertexLayout {
    MeshVertexLayout {
        id,
        has_required_attributes: true,
    }
}

fn ready_binding(bind_group: u64, data: u64) -> Result<PreparedBindGroup, AsBindGroupError> {
    Ok(PreparedBindGroup {
        bindings: vec![(0, 500)],
        bind_group,
        data,
    })
}

#[test]
fn preparation_is_idempotent() {
    let m = material(AlphaMode2d::Blend, 3, 9);
    let first = prepare_asset(m.clone(), ready_binding(77, 9)).unwrap();
    let second = prepare_asset(m, ready_binding(77, 9)).unwrap();
    assert_eq!(first.key, second.key);
    assert_eq!(first.properties.alpha_mode, second.properties.alpha_mode);
    assert_eq!(first.properties.depth_bias, second.properties.depth_bias);
    assert_eq!(
        first.properties.mesh_pipeline_key_bits,
        second.properties.mesh_pipeline_key_bits
    );
    assert!(first.properties.mesh_pipeline_key_bits.blend_alpha);
}

#[test]
fn preparation_retry_hands_the_material_back() {
    let m = material(AlphaMode2d::Opaque, 5, 4);
    let r = prepare_asset(m, Err(AsBindGroupError::RetryNextUpdate));
    match r {
        Err(PrepareAssetError::RetryNextUpdate(source)) => {
            assert_eq!(source.depth_bias, 5);
            assert_eq!(source.bind_group_data, 4);
        }
        Ok(_) => panic!("retry must not produce a prepared material"),
    }
}

#[test]
fn retry_writes_nothing_to_the_cache() {
    let mut materials = IdTable::new();
    let requeue = update_prepared(
        &mut materials,
        11,
        material(AlphaMode2d::Opaque, 0, 1),
        Err(AsBindGroupError::RetryNextUpdate),
    );
    assert!(requeue.is_some());
    assert!(materials.get(11).is_none());
}

#[test]
fn visibility_filtering_drops_invisible_entities() {
    let mut instances = IdTable::new();
    // a stale binding from an earlier frame
    instances.insert(7, 99);
    let rows = vec![
        ExtractedMaterialEntity {
            entity: 7,
            view_visibility: false,
            material: 40,
        },
        ExtractedMaterialEntity {
            entity: 8,
            view_visibility: true,
            material: 41,
        },
    ];
    extract_material_meshes_2d(&mut instances, &rows);
    assert!(instances.get(7).is_none());
    assert_eq!(instances.get(8), Some(&41));
}

#[test]
fn extraction_rebuilds_the_map_every_frame() {
    let mut instances = IdTable::new();
    let first = vec![ExtractedMaterialEntity {
        entity: 1,
        view_visibility: true,
        material: 10,
    }];
    extract_material_meshes_2d(&mut instances, &first);
    assert_eq!(instances.get(1), Some(&10));
    let second = vec![ExtractedMaterialEntity {
        entity: 2,
        view_visibility: true,
        material: 20,
    }];
    extract_material_meshes_2d(&mut instances, &second);
    assert!(instances.get(1).is_none());
    assert_eq!(instances.get(2), Some(&20));
}

#[test]
fn alpha_mode_key_sets_only_the_blend_flag() {
    let blend = alpha_mode_pipeline_key(AlphaMode2d::Blend);
    assert!(blend.blend_alpha);
    assert!(!blend.hdr && !blend.tonemap_in_shader && !blend.deband_dither);
    let opaque = alpha_mode_pipeline_key(AlphaMode2d::Opaque);
    assert!(!opaque.blend_alpha);
}

#[test]
fn tonemapping_key_names_the_method() {
    let k = tonemapping_pipeline_key(Tonemapping::AgX);
    assert_eq!(k.tonemap_method, Tonemapping::AgX);
    assert!(!k.tonemap_in_shader);
}

#[test]
fn hdr_suppresses_in_shader_tonemapping() {
    let hdr = view_pipeline_key(4, true, Some(Tonemapping::AcesFitted), Some(DebandDither::Enabled));
    assert!(!hdr.tonemap_in_shader);
    assert_eq!(hdr.tonemap_method, Tonemapping::Disabled);
    assert!(!hdr.deband_dither);
    assert!(hdr.hdr);

    let sdr = view_pipeline_key(4, false, Some(Tonemapping::AcesFitted), Some(DebandDither::Enabled));
    assert!(sdr.tonemap_in_shader);
    assert_eq!(sdr.tonemap_method, Tonemapping::AcesFitted);
    assert!(sdr.deband_dither);
    assert_eq!(sdr.msaa_samples, 4);
}

#[test]
fn mesh_key_composes_view_topology_and_material_bits() {
    let view_key = view_pipeline_key(2, false, Some(Tonemapping::Reinhard), None);
    let k = mesh_pipeline_key(
        view_key,
        PrimitiveTopology::LineStrip,
        alpha_mode_pipeline_key(AlphaMode2d::Blend),
    );
    assert_eq!(k.msaa_samples, 2);
    assert!(k.tonemap_in_shader);
    assert_eq!(k.tonemap_method, Tonemapping::Reinhard);
    assert_eq!(k.topology, PrimitiveTopology::LineStrip);
    assert!(k.blend_alpha);
}

#[test]
fn pipeline_cache_reuses_the_handle_without_rerunning_the_hook() {
    let pipeline = material_pipeline(SpecializeHook::Passthrough);
    let mut pipelines = SpecializedMeshPipelines::new();
    let mut cache = PipelineCache::new();
    let key = Material2dKey {
        mesh_key: view_pipeline_key(1, false, None, None),
        bind_group_data: 5,
    };
    let first = pipelines
        .specialize(&mut cache, &pipeline, key, layout(55))
        .unwrap();
    assert_eq!(pipelines.calls(), 1);
    let second = pipelines
        .specialize(&mut cache, &pipeline, key, layout(55))
        .unwrap();
    assert_eq!(first, second);
    assert_eq!(pipelines.calls(), 1, "a hit must not re-invoke the hook");
    // a different layout is a different cache entry
    let third = pipelines
        .specialize(&mut cache, &pipeline, key, layout(56))
        .unwrap();
    assert_ne!(first, third);
    assert_eq!(pipelines.calls(), 2);
}

#[test]
fn specialization_sets_three_bind_groups_in_order() {
    let pipeline = Material2dPipeline::new(
        base_mesh_pipeline(),
        102,
        &ShaderRef::Handle(300),
        &ShaderRef::Path(String::from("shaders/custom.wgsl")),
        301,
        302,
        SpecializeHook::AddShaderDefs(vec![7, 8]),
    );
    let key = Material2dKey {
        mesh_key: view_pipeline_key(1, false, None, None),
        bind_group_data: 0,
    };
    let d = pipeline.specialize(key, layout(55)).unwrap();
    assert_eq!(d.layout, vec![100, 101, 102]);
    assert_eq!(d.vertex_shader, 300, "declared handle overrides the default");
    assert_eq!(d.fragment_shader, 302, "path resolves to the loaded handle");
    assert_eq!(d.shader_defs, vec![7, 8]);
    assert_eq!(d.vertex_layout, 55);
}

#[test]
fn default_shaders_are_kept_when_nothing_is_declared() {
    let pipeline = material_pipeline(SpecializeHook::Passthrough);
    assert_eq!(pipeline.vertex_shader, None);
    assert_eq!(pipeline.fragment_shader, None);
    let key = Material2dKey {
        mesh_key: view_pipeline_key(1, false, None, None),
        bind_group_data: 0,
    };
    let d = pipeline.specialize(key, layout(1)).unwrap();
    assert_eq!(d.vertex_shader, 200);
    assert_eq!(d.fragment_shader, 201);
}

#[test]
fn refused_specialization_is_not_cached() {
    let pipeline = material_pipeline(SpecializeHook::Reject);
    let mut pipelines = SpecializedMeshPipelines::new();
    let mut cache = PipelineCache::new();
    let key = Material2dKey {
        mesh_key: view_pipeline_key(1, false, None, None),
        bind_group_data: 0,
    };
    assert!(pipelines.specialize(&mut cache, &pipeline, key, layout(1)).is_err());
    assert_eq!(pipelines.calls(), 1);
    assert!(pipelines.specialize(&mut cache, &pipeline, key, layout(1)).is_err());
    assert_eq!(pipelines.calls(), 2, "a refusal memoizes nothing");
    assert!(cache.descriptors.is_empty());
}

struct QueueSetup {
    pipeline: Material2dPipeline,
    pipelines: SpecializedMeshPipelines,
    cache: PipelineCache,
    meshes: IdTable<RenderMesh>,
    materials: IdTable<mesh2d_material::prepare::PreparedMaterial2d>,
    mesh_instances: IdTable<RenderMesh2dInstance>,
    material_instances: IdTable<u64>,
    opaque: OpaquePhase,
    transparent: TransparentPhase,
}

fn queue_setup(hook: SpecializeHook) -> QueueSetup {
    let mut meshes = IdTable::new();
    meshes.insert(
        10,
        RenderMesh {
            topology: PrimitiveTopology::TriangleList,
            layout: layout(55),
        },
    );
    QueueSetup {
        pipeline: material_pipeline(hook),
        pipelines: SpecializedMeshPipelines::new(),
        cache: PipelineCache::new(),
        meshes,
        materials: IdTable::new(),
        mesh_instances: IdTable::new(),
        material_instances: IdTable::new(),
        opaque: OpaquePhase::new(),
        transparent: TransparentPhase::new(),
    }
}

fn run_queue(s: &mut QueueSetup, visible_entities: Vec<u64>) -> Vec<(u64, SpecializedMeshPipelineError)> {
    let view = ExtractedView2d {
        msaa_samples: 1,
        hdr: false,
        tonemapping: None,
        dither: None,
        visible_entities,
    };
    queue_material2d_meshes(
        1,
        2,
        &s.pipeline,
        &mut s.pipelines,
        &mut s.cache,
        &s.meshes,
        &s.materials,
        &mut s.mesh_instances,
        &s.material_instances,
        &view,
        &mut s.opaque,
        &mut s.transparent,
    )
}

#[test]
fn queuing_partitions_entities_between_the_phases() {
    let mut s = queue_setup(SpecializeHook::Passthrough);
    // entity 1: opaque material, drawable
    update_prepared(&mut s.materials, 40, material(AlphaMode2d::Opaque, 0, 6), ready_binding(70, 6));
    s.material_instances.insert(1, 40);
    s.mesh_instances.insert(
        1,
        RenderMesh2dInstance {
            mesh_asset_id: 10,
            world_z: 12,
            automatic_batching: true,
            material_bind_group_id: Default::default(),
        },
    );
    // entity 2: blended material, drawable
    update_prepared(&mut s.materials, 41, material(AlphaMode2d::Blend, 3, 7), ready_binding(71, 7));
    s.material_instances.insert(2, 41);
    s.mesh_instances.insert(
        2,
        RenderMesh2dInstance {
            mesh_asset_id: 10,
            world_z: depth_key(1.5),
            automatic_batching: false,
            material_bind_group_id: Default::default(),
        },
    );
    // entity 3: material still preparing (absent from the cache)
    s.material_instances.insert(3, 42);
    s.mesh_instances.insert(
        3,
        RenderMesh2dInstance {
            mesh_asset_id: 10,
            world_z: 0,
            automatic_batching: true,
            material_bind_group_id: Default::default(),
        },
    );
    // entity 4: mesh GPU data not resident
    update_prepared(&mut s.materials, 43, material(AlphaMode2d::Opaque, 0, 8), ready_binding(72, 8));
    s.material_instances.insert(4, 43);
    s.mesh_instances.insert(
        4,
        RenderMesh2dInstance {
            mesh_asset_id: 999,
            world_z: 0,
            automatic_batching: true,
            material_bind_group_id: Default::default(),
        },
    );
    // entity 5: not in the instance map at all
    run_queue(&mut s, vec![1, 2, 3, 4, 5]);

    assert_eq!(s.opaque.items.len(), 1);
    assert_eq!(s.transparent.items.len(), 1);
    let op = &s.opaque.items[0];
    assert_eq!(op.entity, 1);
    assert_eq!(op.key.draw_function, 1);
    assert_eq!(op.key.asset_id, 10);
    assert_eq!(op.key.material_bind_group_id, Some(70));
    assert!(op.batchable);
    let tp = &s.transparent.items[0];
    assert_eq!(tp.entity, 2);
    assert_eq!(tp.draw_function, 2);
    assert_eq!(tp.sort_key, depth_key(1.5) as i64 + 3);
    assert_eq!((tp.batch_start, tp.batch_end), (0, 1));
    assert_eq!(tp.extra_index, None);
}

#[test]
fn queuing_skips_an_entity_whose_specialization_is_refused() {
    let mut s = queue_setup(SpecializeHook::Reject);
    update_prepared(&mut s.materials, 40, material(AlphaMode2d::Opaque, 0, 6), ready_binding(70, 6));
    s.material_instances.insert(1, 40);
    s.mesh_instances.insert(
        1,
        RenderMesh2dInstance {
            mesh_asset_id: 10,
            world_z: 0,
            automatic_batching: true,
            material_bind_group_id: Default::default(),
        },
    );
    let errors = run_queue(&mut s, vec![1]);
    assert!(s.opaque.items.is_empty());
    assert!(s.transparent.items.is_empty());
    assert_eq!(
        errors,
        vec![(1, SpecializedMeshPipelineError::SpecializationRefused)]
    );
}

#[test]
fn queuing_refreshes_the_cached_bind_group_identity() {
    let mut s = queue_setup(SpecializeHook::Passthrough);
    update_prepared(&mut s.materials, 40, material(AlphaMode2d::Opaque, 0, 6), ready_binding(70, 6));
    s.material_instances.insert(1, 40);
    s.mesh_instances.insert(
        1,
        RenderMesh2dInstance {
            mesh_asset_id: 10,
            world_z: 0,
            automatic_batching: true,
            material_bind_group_id: Default::default(),
        },
    );
    run_queue(&mut s, vec![1]);
    let inst = s.mesh_instances.get(1).unwrap();
    assert_eq!(inst.material_bind_group_id.0, Some(70));
}

#[test]
fn queued_pipelines_are_shared_across_entities_with_equal_keys() {
    let mut s = queue_setup(SpecializeHook::Passthrough);
    for e in 1..=2 {
        update_prepared(
            &mut s.materials,
            40 + e,
            material(AlphaMode2d::Opaque, 0, 6),
            ready_binding(70, 6),
        );
        s.material_instances.insert(e, 40 + e);
        s.mesh_instances.insert(
            e,
            RenderMesh2dInstance {
                mesh_asset_id: 10,
                world_z: 0,
                automatic_batching: true,
                material_bind_group_id: Default::default(),
            },
        );
    }
    run_queue(&mut s, vec![1, 2]);
    assert_eq!(s.opaque.items.len(), 2);
    assert_eq!(s.opaque.items[0].key.pipeline, s.opaque.items[1].key.pipeline);
    assert_eq!(s.pipelines.calls(), 1, "equal keys build one pipeline");
    assert_eq!(s.cache.descriptors.len(), 1);
}

#[test]
fn transparent_phase_sorts_back_to_front_keeping_insertion_order_of_ties() {
    let mut phase = TransparentPhase::new();
    let keys = [5.0f32, -2.0, 0.0, -2.0];
    for (entity, z) in keys.iter().enumerate() {
        phase.add(Transparent2d {
            entity: entity as u64,
            draw_function: 2,
            pipeline: 0,
            sort_key: depth_key(*z) as i64,
            batch_start: 0,
            batch_end: 1,
            extra_index: None,
        });
    }
    phase.sort();
    let sorted: Vec<i64> = phase.items.iter().map(|i| i.sort_key).collect();
    assert_eq!(
        sorted,
        vec![
            depth_key(-2.0) as i64,
            depth_key(-2.0) as i64,
            depth_key(0.0) as i64,
            depth_key(5.0) as i64
        ]
    );
    // equal keys keep their insertion order: entity 1 was queued before 3
    let entities: Vec<u64> = phase.items.iter().map(|i| i.entity).collect();
    assert_eq!(entities, vec![1, 3, 2, 0]);
}

#[test]
fn retry_converges_with_no_dropped_frame_once_ready() {
    let mut s = queue_setup(SpecializeHook::Passthrough);
    s.material_instances.insert(1, 40);
    s.mesh_instances.insert(
        1,
        RenderMesh2dInstance {
            mesh_asset_id: 10,
            world_z: 0,
            automatic_batching: true,
            material_bind_group_id: Default::default(),
        },
    );
    // frame N: the binding dependency is not ready
    let requeued = update_prepared(
        &mut s.materials,
        40,
        material(AlphaMode2d::Blend, 0, 6),
        Err(AsBindGroupError::RetryNextUpdate),
    )
    .expect("the material must be requeued");
    run_queue(&mut s, vec![1]);
    assert!(s.transparent.items.is_empty(), "not prepared: skipped, no error");
    // frame N+1: the dependency became ready; the requeued material prepares
    update_prepared(&mut s.materials, 40, requeued, ready_binding(70, 6));
    run_queue(&mut s, vec![1]);
    assert_eq!(s.transparent.items.len(), 1);
    assert_eq!(s.transparent.items[0].entity, 1);
}

#[test]
fn bind_group_command_resolves_or_skips() {
    let mut materials = IdTable::new();
    let mut instances = IdTable::new();
    update_prepared(&mut materials, 40, material(AlphaMode2d::Opaque, 0, 6), ready_binding(70, 6));
    instances.insert(1, 40);
    instances.insert(2, 99);
    assert_eq!(material2d_bind_group(&materials, &instances, 1), Some(70));
    assert_eq!(material2d_bind_group(&materials, &instances, 2), None);
    assert_eq!(material2d_bind_group(&materials, &instances, 3), None);
}

#[test]
fn queuing_with_an_empty_instance_map_is_a_no_op() {
    let mut s = queue_setup(SpecializeHook::Passthrough);
    update_prepared(&mut s.materials, 40, material(AlphaMode2d::Opaque, 0, 6), ready_binding(70, 6));
    s.mesh_instances.insert(
        1,
        RenderMesh2dInstance {
            mesh_asset_id: 10,
            world_z: 0,
            automatic_batching: true,
            material_bind_group_id: Default::default(),
        },
    );
    run_queue(&mut s, vec![1]);
    assert!(s.opaque.items.is_empty());
    assert!(s.transparent.items.is_empty());
    assert_eq!(s.pipelines.calls(), 0);
}

#[test]
fn table_bindings_replace_in_place() {
    let mut table: IdTable<u64> = IdTable::new();
    table.insert(1, 10);
    table.insert(2, 20);
    table.insert(1, 11);
    assert_eq!(table.get(1), Some(&11));
    assert_eq!(table.get(2), Some(&20));
    assert_eq!(table.get(3), None);
    table.clear();
    assert!(table.is_empty());
    assert_eq!(table.get(1), None);
}

#[test]
fn missing_vertex_attribute_is_reported_and_skipped() {
    let mut s = queue_setup(SpecializeHook::Passthrough);
    s.meshes.insert(
        11,
        RenderMesh {
            topology: PrimitiveTopology::TriangleList,
            layout: MeshVertexLayout {
                id: 56,
                has_required_attributes: false,
            },
        },
    );
    update_prepared(&mut s.materials, 40, material(AlphaMode2d::Opaque, 0, 6), ready_binding(70, 6));
    s.material_instances.insert(1, 40);
    s.mesh_instances.insert(
        1,
        RenderMesh2dInstance {
            mesh_asset_id: 11,
            world_z: 0,
            automatic_batching: true,
            material_bind_group_id: Default::default(),
        },
    );
    let errors = run_queue(&mut s, vec![1]);
    assert!(s.opaque.items.is_empty());
    assert!(s.transparent.items.is_empty());
    assert_eq!(
        errors,
        vec![(1, SpecializedMeshPipelineError::MissingVertexAttribute)]
    );
}

#[test]
fn default_material_overrides_nothing() {
    let m = Material2d::default();
    assert!(matches!(m.vertex_shader, ShaderRef::EngineDefault));
    assert!(matches!(m.fragment_shader, ShaderRef::EngineDefault));
    assert_eq!(m.alpha_mode, AlphaMode2d::Opaque);
    assert_eq!(m.depth_bias, 0);
    assert_eq!(m.bind_group_data, 0);
    assert!(matches!(m.hook, SpecializeHook::Passthrough));
}
