use scene_core::document::SceneDocument;
use scene_core::gpu::GpuInitOutcome;
use scene_core::input::{movement_key, InputRouter, MovementKey, PointerAction};
use scene_core::session::EditorSession;

#[test]
fn movement_keys_are_recognized() {
    assert_eq!(movement_key("w"), Some(MovementKey::Forward));
    assert_eq!(movement_key("a"), Some(MovementKey::Left));
    assert_eq!(movement_key("s"), Some(MovementKey::Backward));
    assert_eq!(movement_key("d"), Some(MovementKey::Right));
    assert_eq!(movement_key("x"), None);
    assert_eq!(movement_key("W"), None);
}

#[test]
fn a_held_key_issues_its_intent_exactly_once() {
    let mut r = InputRouter::released();
    assert_eq!(r.key_event("w", true), Some(MovementKey::Forward));
    assert_eq!(r.key_event("w", true), None);
    assert_eq!(r.key_event("w", false), None);
    assert_eq!(r.key_event("w", true), Some(MovementKey::Forward));
}

#[test]
fn non_movement_keys_leave_the_router_untouched() {
    let mut r = InputRouter::released();
    assert_eq!(r.key_event("Escape", true), None);
    assert_eq!(r, InputRouter::released());
}

#[test]
fn independent_keys_track_independently() {
    let mut r = InputRouter::released();
    assert_eq!(r.key_event("w", true), Some(MovementKey::Forward));
    assert_eq!(r.key_event("d", true), Some(MovementKey::Right));
    assert_eq!(r.key_event("w", false), None);
    assert!(r.pressed(MovementKey::Right));
    assert!(!r.pressed(MovementKey::Forward));
}

#[test]
fn pointer_drag_orbits_and_modifier_drag_pans() {
    let mut s = EditorSession::initialize(
        SceneDocument::empty(),
        640,
        480,
        "session-1".to_string(),
        false,
        GpuInitOutcome::DeviceAcquired,
    )
    .unwrap();
    let x = 100.0f32.to_bits();
    let y = 50.0f32.to_bits();
    let dx = 3.0f32.to_bits();
    let dy = (-2.0f32).to_bits();
    assert_eq!(s.pointer_event(x, y, dx, dy, true, false), PointerAction::Orbit { x, y, dx, dy });
    assert_eq!(s.pointer_event(x, y, dx, dy, true, true), PointerAction::Pan { dx, dy });
    assert_eq!(s.pointer_event(x, y, dx, dy, false, true), PointerAction::Idle);
    assert_eq!(s.pointer_event(x, y, dx, dy, false, false), PointerAction::Idle);

    // Input events funnel through the same session boundary as tool calls.
    assert_eq!(s.key_event("w", true), Some(MovementKey::Forward));
    assert_eq!(s.key_event("w", true), None);
    let pos = scene_core::scalars::Vector3 {
        x: 0.0f32.to_bits(),
        y: 1.0f32.to_bits(),
        z: 2.0f32.to_bits(),
    };
    let dir = scene_core::scalars::Vector3 {
        x: 0.0f32.to_bits(),
        y: 0.0f32.to_bits(),
        z: (-1.0f32).to_bits(),
    };
    s.set_camera(pos, dir);
    assert_eq!(s.mirror.camera.position, pos);
    assert_eq!(s.mirror.camera.direction, dir);
    assert_eq!(s.mirror.camera.viewport_width, 640);
}
