use scene_core::scalars::{Color4, Vector3, SCALAR_ONE};
use scene_core::water::{WaterConfig, WaterPatch};

fn bits(v: f32) -> u32 {
    v.to_bits()
}

#[test]
fn scalar_one_is_the_bit_pattern_of_one() {
    assert_eq!(SCALAR_ONE, 1.0f32.to_bits());
}

#[test]
fn merge_sets_exactly_the_named_field() {
    let base = WaterConfig::default();
    let mut patch = WaterPatch::empty();
    patch.wave1_amplitude = Some(bits(0.5));
    let merged = base.merge(&patch);
    assert_eq!(merged.wave1_amplitude, bits(0.5));
    assert_eq!(merged.wave2_amplitude, 0);
    assert_eq!(merged.ripple_freq, 0);
    assert_eq!(merged.shallow_color, base.shallow_color);
}

#[test]
fn merge_field_independence_across_successive_patches() {
    let base = WaterConfig::default();
    let mut first = WaterPatch::empty();
    first.wave1_amplitude = Some(bits(0.5));
    let mut second = WaterPatch::empty();
    second.wave2_speed = Some(bits(1.2));
    let after_first = base.merge(&first);
    let after_second = after_first.merge(&second);
    assert_eq!(after_second.wave1_amplitude, bits(0.5));
    assert_eq!(after_second.wave2_speed, bits(1.2));
}

#[test]
fn merge_is_idempotent() {
    let base = WaterConfig::default();
    let mut patch = WaterPatch::empty();
    patch.wave3_steepness = Some(bits(0.8));
    patch.fresnel_power = Some(bits(5.0));
    patch.deep_color = Some(Vector3 { x: bits(0.0), y: bits(0.1), z: bits(0.4) });
    let once = base.merge(&patch);
    let twice = once.merge(&patch);
    assert_eq!(once, twice);
}

#[test]
fn merge_empty_patch_changes_nothing() {
    let mut base = WaterConfig::default();
    base.sparkle_intensity = bits(2.5);
    let merged = base.merge(&WaterPatch::empty());
    assert_eq!(merged, base);
}

#[test]
fn merged_color_is_widened_with_unit_alpha() {
    let base = WaterConfig::default();
    let mut patch = WaterPatch::empty();
    patch.shallow_color = Some(Vector3 { x: bits(0.1), y: bits(0.2), z: bits(0.3) });
    let merged = base.merge(&patch);
    assert_eq!(
        merged.shallow_color,
        Color4 { r: bits(0.1), g: bits(0.2), b: bits(0.3), a: 1.0f32.to_bits() }
    );
}

#[test]
fn untouched_fields_stay_bit_for_bit() {
    let mut base = WaterConfig::default();
    base.crest_foam_min = bits(0.37);
    base.wave2_direction = scene_core::scalars::Vector2 { x: bits(-1.0), y: bits(0.25) };
    let mut patch = WaterPatch::empty();
    patch.crest_foam_max = Some(bits(0.9));
    let merged = base.merge(&patch);
    assert_eq!(merged.crest_foam_min, bits(0.37));
    assert_eq!(merged.wave2_direction.x, bits(-1.0));
    assert_eq!(merged.wave2_direction.y, bits(0.25));
    assert_eq!(merged.crest_foam_max, bits(0.9));
}
