use scene_core::scalars::Vector3;
use scene_core::transform::{Transform3, TransformPatch};

fn v(x: f32, y: f32, z: f32) -> Vector3 {
    Vector3 { x: x.to_bits(), y: y.to_bits(), z: z.to_bits() }
}

fn base() -> Transform3 {
    Transform3 { position: v(1.0, 2.0, 3.0), rotation: v(0.0, 90.0, 0.0), scale: v(1.0, 1.0, 1.0) }
}

#[test]
fn patch_overwrites_named_fields() {
    let p = TransformPatch {
        translation: Some(v(4.0, 5.0, 6.0)),
        rotation: None,
        scale: Some(v(2.0, 2.0, 2.0)),
    };
    let r = base().apply_patch(&p);
    assert_eq!(r.position, v(4.0, 5.0, 6.0));
    assert_eq!(r.rotation, v(0.0, 90.0, 0.0));
    assert_eq!(r.scale, v(2.0, 2.0, 2.0));
}

#[test]
fn rotation_only_patch_keeps_translation_and_scale_byte_identical() {
    let p = TransformPatch { translation: None, rotation: Some(v(0.0, 45.0, 0.0)), scale: None };
    let r = base().apply_patch(&p);
    assert_eq!(r.position, base().position);
    assert_eq!(r.scale, base().scale);
    assert_eq!(r.rotation, v(0.0, 45.0, 0.0));
}

#[test]
fn applying_a_patch_twice_equals_applying_it_once() {
    let p = TransformPatch {
        translation: Some(v(1.0, 2.0, 3.0)),
        rotation: Some(v(10.0, 20.0, 30.0)),
        scale: None,
    };
    let once = base().apply_patch(&p);
    let twice = once.apply_patch(&p);
    assert_eq!(once, twice);
}

#[test]
fn empty_patch_changes_nothing() {
    let p = TransformPatch { translation: None, rotation: None, scale: None };
    assert_eq!(base().apply_patch(&p), base());
}
