use scene_core::commands::{EditorError, ToolCommand, Warning};
use scene_core::document::{
    ComponentData, ComponentKind, ComponentPayload, GenericProperties, Level, ModelProperties,
    SceneDocument,
};
use scene_core::gpu::{
    AcquireOutcome, CompositeAlphaMode, GpuInitOutcome, PresentMode, TextureFormat,
};
use scene_core::scalars::Vector3;
use scene_core::scheduler::{SchedulerPhase, TickOutcome};
use scene_core::session::EditorSession;
use scene_core::transform::TransformPatch;
use scene_core::water::{WaterConfig, WaterPatch};

fn v(x: f32, y: f32, z: f32) -> Vector3 {
    Vector3 { x: x.to_bits(), y: y.to_bits(), z: z.to_bits() }
}

fn model_component(id: &str) -> ComponentData {
    ComponentData {
        id: id.to_string(),
        generic_properties: GenericProperties {
            name: format!("{} name", id),
            position: v(0.0, 0.0, 0.0),
            rotation: v(0.0, 0.0, 0.0),
            scale: v(1.0, 1.0, 1.0),
        },
        kind: Some(ComponentKind::Model),
        payload: Some(ComponentPayload::Model(ModelProperties { asset_id: None })),
        scatter: None,
    }
}

fn water_component(id: &str) -> ComponentData {
    ComponentData {
        id: id.to_string(),
        generic_properties: GenericProperties {
            name: "water".to_string(),
            position: v(0.0, 0.0, 0.0),
            rotation: v(0.0, 0.0, 0.0),
            scale: v(1.0, 1.0, 1.0),
        },
        kind: Some(ComponentKind::WaterPlane),
        payload: Some(ComponentPayload::WaterPlane(WaterConfig::default())),
        scatter: None,
    }
}

fn doc_of(components: Vec<ComponentData>) -> SceneDocument {
    SceneDocument { levels: vec![Level { components }] }
}

fn session_of(doc: SceneDocument) -> EditorSession {
    EditorSession::initialize(
        doc,
        1024,
        768,
        "session-1".to_string(),
        false,
        GpuInitOutcome::DeviceAcquired,
    )
    .expect("initialization with an acquired device succeeds")
}

#[test]
fn end_to_end_empty_document() {
    let mut s = session_of(SceneDocument::empty());
    let tick = s.render_frame(16, AcquireOutcome::Frame);
    assert_eq!(tick, TickOutcome::Presented { drawn: 0 });
    let ack = s.execute_tool_call(&ToolCommand::TransformObject {
        component_id: "x".to_string(),
        patch: TransformPatch { translation: Some(v(1.0, 2.0, 3.0)), rotation: None, scale: None },
    });
    assert_eq!(ack, "{\"success\": true}");
    let snapshot = s.current_document_snapshot();
    assert_eq!(snapshot.component_total(), 0);
    assert_eq!(s.warnings.len(), 1);
    assert!(matches!(&s.warnings[0], Warning::UnknownComponentId { id } if id == "x"));
}

#[test]
fn transform_updates_document_and_mirror_together() {
    let mut s = session_of(doc_of(vec![model_component("obj1"), model_component("obj2")]));
    s.apply_transform(
        "obj1",
        &TransformPatch { translation: Some(v(1.0, 2.0, 3.0)), rotation: None, scale: None },
    );
    let doc = s.current_document_snapshot();
    let c = &doc.levels[0].components[0];
    assert_eq!(c.generic_properties.position, v(1.0, 2.0, 3.0));
    assert_eq!(c.generic_properties.scale, v(1.0, 1.0, 1.0));
    let entry = s.mirror.models.iter().find(|m| m.id == "obj1").unwrap();
    for mesh in entry.meshes.iter() {
        assert_eq!(mesh.transform.position, v(1.0, 2.0, 3.0));
        assert_eq!(mesh.transform.scale, v(1.0, 1.0, 1.0));
    }
    let other = s.mirror.models.iter().find(|m| m.id == "obj2").unwrap();
    for mesh in other.meshes.iter() {
        assert_eq!(mesh.transform.position, v(0.0, 0.0, 0.0));
    }
}

#[test]
fn transform_twice_is_equivalent_to_once() {
    let patch = TransformPatch {
        translation: Some(v(1.0, 2.0, 3.0)),
        rotation: None,
        scale: None,
    };
    let mut s = session_of(doc_of(vec![model_component("obj1")]));
    s.apply_transform("obj1", &patch);
    let once_doc = s.current_document_snapshot();
    let once_mesh = s.mirror.models[0].meshes[0].transform;
    s.apply_transform("obj1", &patch);
    let twice_doc = s.current_document_snapshot();
    let twice_mesh = s.mirror.models[0].meshes[0].transform;
    assert_eq!(
        once_doc.levels[0].components[0].generic_properties.position,
        twice_doc.levels[0].components[0].generic_properties.position
    );
    assert_eq!(once_mesh, twice_mesh);
}

#[test]
fn rotation_only_transform_keeps_position_and_scale() {
    let mut s = session_of(doc_of(vec![model_component("obj1")]));
    s.apply_transform(
        "obj1",
        &TransformPatch { translation: Some(v(7.0, 8.0, 9.0)), rotation: None, scale: None },
    );
    s.apply_transform(
        "obj1",
        &TransformPatch { translation: None, rotation: Some(v(0.0, 45.0, 0.0)), scale: None },
    );
    let doc = s.current_document_snapshot();
    let c = &doc.levels[0].components[0];
    assert_eq!(c.generic_properties.position, v(7.0, 8.0, 9.0));
    assert_eq!(c.generic_properties.rotation, v(0.0, 45.0, 0.0));
    assert_eq!(c.generic_properties.scale, v(1.0, 1.0, 1.0));
    assert_eq!(s.mirror.models[0].meshes[0].transform.position, v(7.0, 8.0, 9.0));
}

#[test]
fn a_rendered_frame_shows_every_field_of_a_mutation_at_once() {
    let mut s = session_of(doc_of(vec![model_component("obj1")]));
    s.render_frame(16, AcquireOutcome::Frame);
    s.apply_transform(
        "obj1",
        &TransformPatch {
            translation: Some(v(1.0, 2.0, 3.0)),
            rotation: Some(v(0.0, 90.0, 0.0)),
            scale: None,
        },
    );
    let tick = s.render_frame(32, AcquireOutcome::Frame);
    assert_eq!(tick, TickOutcome::Presented { drawn: 1 });
    let t = s.mirror.models[0].meshes[0].transform;
    assert_eq!(t.position, v(1.0, 2.0, 3.0));
    assert_eq!(t.rotation, v(0.0, 90.0, 0.0));
    assert_eq!(t.scale, v(1.0, 1.0, 1.0));
}

#[test]
fn unknown_id_leaves_document_and_mirror_unchanged() {
    let mut s = session_of(doc_of(vec![model_component("obj1")]));
    let models_before = s.mirror.models.len();
    let ack = s.execute_tool_call(&ToolCommand::TransformObject {
        component_id: "ghost".to_string(),
        patch: TransformPatch { translation: Some(v(9.0, 9.0, 9.0)), rotation: None, scale: None },
    });
    assert_eq!(ack, "{\"success\": true}");
    let doc = s.current_document_snapshot();
    assert_eq!(doc.component_total(), 1);
    assert_eq!(doc.levels[0].components[0].id, "obj1");
    assert_eq!(doc.levels[0].components[0].generic_properties.position, v(0.0, 0.0, 0.0));
    assert_eq!(s.mirror.models.len(), models_before);
    assert!(matches!(&s.warnings[0], Warning::UnknownComponentId { id } if id == "ghost"));
}

#[test]
fn water_config_reaches_document_mirror_and_gpu() {
    let mut s = session_of(doc_of(vec![model_component("obj1"), water_component("water1")]));
    let mut first = WaterPatch::empty();
    first.wave1_amplitude = Some(0.5f32.to_bits());
    let mut second = WaterPatch::empty();
    second.wave2_speed = Some(1.2f32.to_bits());
    s.apply_water_config(&first);
    assert!(s.mirror.water_planes[0].pending_upload);
    s.apply_water_config(&second);
    let entry = &s.mirror.water_planes[0];
    assert_eq!(entry.config.wave1_amplitude, 0.5f32.to_bits());
    assert_eq!(entry.config.wave2_speed, 1.2f32.to_bits());
    let doc = s.current_document_snapshot();
    let water = &doc.levels[0].components[1];
    match &water.payload {
        Some(ComponentPayload::WaterPlane(cfg)) => {
            assert_eq!(cfg.wave1_amplitude, 0.5f32.to_bits());
            assert_eq!(cfg.wave2_speed, 1.2f32.to_bits());
            assert_eq!(*cfg, s.mirror.water_planes[0].config);
        },
        other => panic!("water payload expected, got {:?}", other),
    }
    let tick = s.render_frame(16, AcquireOutcome::Frame);
    assert!(matches!(tick, TickOutcome::Presented { .. }));
    assert!(!s.mirror.water_planes[0].pending_upload);
    assert_eq!(s.mirror.water_planes[0].uploaded, s.mirror.water_planes[0].config);
}

#[test]
fn water_config_without_water_plane_is_a_noop() {
    let mut s = session_of(doc_of(vec![model_component("obj1")]));
    let mut patch = WaterPatch::empty();
    patch.fresnel_power = Some(5.0f32.to_bits());
    let ack = s.execute_tool_call(&ToolCommand::ConfigureWater(patch));
    assert_eq!(ack, "{\"success\": true}");
    assert_eq!(s.mirror.water_planes.len(), 0);
    assert_eq!(s.warnings.len(), 0);
}

#[test]
fn transient_acquire_then_resize_then_render_succeeds() {
    let mut s = session_of(doc_of(vec![model_component("obj1")]));
    let tick = s.render_frame(16, AcquireOutcome::Transient);
    assert_eq!(tick, TickOutcome::Skipped);
    assert_eq!(s.scheduler.phase, SchedulerPhase::Ready);
    assert!(matches!(s.warnings[0], Warning::SurfaceAcquireTransient));
    s.resize(800, 600);
    let config = s.gpu.config.unwrap();
    assert_eq!(config.width, 800);
    assert_eq!(config.height, 600);
    assert_eq!(config.format, TextureFormat::Rgba8Unorm);
    assert_eq!(config.present_mode, PresentMode::Fifo);
    assert_eq!(config.alpha_mode, CompositeAlphaMode::PreMultiplied);
    assert_eq!(config.desired_maximum_frame_latency, 2);
    let tick = s.render_frame(32, AcquireOutcome::Frame);
    assert_eq!(tick, TickOutcome::Presented { drawn: 1 });
    assert_eq!(s.scheduler.last_timestamp, 32);
}

#[test]
fn transient_acquire_does_not_advance_animation_time() {
    let mut s = session_of(SceneDocument::empty());
    s.render_frame(16, AcquireOutcome::Frame);
    assert_eq!(s.scheduler.last_timestamp, 16);
    s.render_frame(32, AcquireOutcome::Transient);
    assert_eq!(s.scheduler.last_timestamp, 16);
}

#[test]
fn fatal_acquire_stops_the_scheduler() {
    let mut s = session_of(SceneDocument::empty());
    let tick = s.render_frame(16, AcquireOutcome::Fatal);
    assert_eq!(tick, TickOutcome::Skipped);
    assert_eq!(s.scheduler.phase, SchedulerPhase::Stopped);
    assert!(!s.gpu.device_live);
    let tick = s.render_frame(32, AcquireOutcome::Frame);
    assert_eq!(tick, TickOutcome::Skipped);
}

#[test]
fn initialization_without_adapter_fails_fatally() {
    let r = EditorSession::initialize(
        SceneDocument::empty(),
        1024,
        768,
        "session-1".to_string(),
        false,
        GpuInitOutcome::NoCompatibleAdapter,
    );
    assert_eq!(r.err(), Some(EditorError::GpuInitFailure));
}

#[test]
fn teardown_releases_surface_before_device_and_stops() {
    let mut s = session_of(doc_of(vec![model_component("obj1")]));
    s.teardown();
    assert!(!s.gpu.surface_attached);
    assert!(!s.gpu.device_live);
    assert_eq!(s.scheduler.phase, SchedulerPhase::Stopped);
    let tick = s.render_frame(16, AcquireOutcome::Frame);
    assert_eq!(tick, TickOutcome::Skipped);
}

#[test]
fn snapshot_equals_the_document() {
    let mut s = session_of(doc_of(vec![model_component("obj1"), water_component("water1")]));
    s.apply_transform(
        "obj1",
        &TransformPatch { translation: Some(v(5.0, 0.0, 0.0)), rotation: None, scale: None },
    );
    let snap = s.current_document_snapshot();
    assert_eq!(snap.levels.len(), s.document.levels.len());
    for (a, b) in snap.levels[0].components.iter().zip(s.document.levels[0].components.iter()) {
        assert_eq!(a.id, b.id);
        assert_eq!(a.generic_properties.position, b.generic_properties.position);
    }
}
