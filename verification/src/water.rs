//! The water surface shader configuration and the partial patch carried by
//! the `configureWater` mutation command.
//!
//! The configuration is a flat record of independently settable shader
//! parameters. A patch names any subset of them; merging a patch overwrites
//! exactly the named fields and keeps every other field bit-for-bit.

use vstd::prelude::*;

use crate::scalars::{Color4, Scalar, Vector2, Vector3};

verus! {

/// The full water shader parameter record, as mirrored into the GPU uniform
/// buffer. Three-component color inputs are stored widened to four
/// components with a unit alpha.
#[derive(Clone, Copy, Debug, PartialEq, Eq, Structural)]
pub struct WaterConfig {
    pub shallow_color: Color4,
    pub medium_color: Color4,
    pub deep_color: Color4,
    pub ripple_amplitude_multiplier: Scalar,
    pub ripple_freq: Scalar,
    pub ripple_speed: Scalar,
    pub shoreline_foam_range: Scalar,
    pub crest_foam_min: Scalar,
    pub crest_foam_max: Scalar,
    pub sparkle_intensity: Scalar,
    pub sparkle_threshold: Scalar,
    pub subsurface_multiplier: Scalar,
    pub fresnel_power: Scalar,
    pub fresnel_multiplier: Scalar,
    pub wave1_amplitude: Scalar,
    pub wave1_frequency: Scalar,
    pub wave1_speed: Scalar,
    pub wave1_steepness: Scalar,
    pub wave1_direction: Vector2,
    pub wave2_amplitude: Scalar,
    pub wave2_frequency: Scalar,
    pub wave2_speed: Scalar,
    pub wave2_steepness: Scalar,
    pub wave2_direction: Vector2,
    pub wave3_amplitude: Scalar,
    pub wave3_frequency: Scalar,
    pub wave3_speed: Scalar,
    pub wave3_steepness: Scalar,
    pub wave3_direction: Vector2,
}

/// A partial water configuration: every present field overwrites the
/// matching configuration field, absent fields leave it untouched.
/// Colors are supplied with three components and widened on merge.
#[derive(Clone, Copy, Debug)]
pub struct WaterPatch {
    pub shallow_color: Option<Vector3>,
    pub medium_color: Option<Vector3>,
    pub deep_color: Option<Vector3>,
    pub ripple_amplitude_multiplier: Option<Scalar>,
    pub ripple_freq: Option<Scalar>,
    pub ripple_speed: Option<Scalar>,
    pub shoreline_foam_range: Option<Scalar>,
    pub crest_foam_min: Option<Scalar>,
    pub crest_foam_max: Option<Scalar>,
    pub sparkle_intensity: Option<Scalar>,
    pub sparkle_threshold: Option<Scalar>,
    pub subsurface_multiplier: Option<Scalar>,
    pub fresnel_power: Option<Scalar>,
    pub fresnel_multiplier: Option<Scalar>,
    pub wave1_amplitude: Option<Scalar>,
    pub wave1_frequency: Option<Scalar>,
    pub wave1_speed: Option<Scalar>,
    pub wave1_steepness: Option<Scalar>,
    pub wave1_direction: Option<Vector2>,
    pub wave2_amplitude: Option<Scalar>,
    pub wave2_frequency: Option<Scalar>,
    pub wave2_speed: Option<Scalar>,
    pub wave2_steepness: Option<Scalar>,
    pub wave2_direction: Option<Vector2>,
    pub wave3_amplitude: Option<Scalar>,
    pub wave3_frequency: Option<Scalar>,
    pub wave3_speed: Option<Scalar>,
    pub wave3_steepness: Option<Scalar>,
    pub wave3_direction: Option<Vector2>,
}

/// The value an optional patch field contributes: its own value when
/// present, the current value otherwise.
pub open spec fn picked<T>(o: Option<T>, current: T) -> T {
    match o {
        Option::Some(v) => v,
        Option::None => current,
    }
}

/// The color a patched three-component color field contributes: the widened
/// patch value when present, the current color otherwise.
pub open spec fn picked_color(o: Option<Vector3>, current: Color4) -> Color4 {
    match o {
        Option::Some(v) => Color4::opaque_spec(v),
        Option::None => current,
    }
}

/// The configuration that results from merging a patch: present fields
/// replace the old value, absent fields are kept bit-for-bit.
pub open spec fn merged_water(c: WaterConfig, p: WaterPatch) -> WaterConfig {
    WaterConfig {
        shallow_color: picked_color(p.shallow_color, c.shallow_color),
        medium_color: picked_color(p.medium_color, c.medium_color),
        deep_color: picked_color(p.deep_color, c.deep_color),
        ripple_amplitude_multiplier: picked(
            p.ripple_amplitude_multiplier,
            c.ripple_amplitude_multiplier,
        ),
        ripple_freq: picked(p.ripple_freq, c.ripple_freq),
        ripple_speed: picked(p.ripple_speed, c.ripple_speed),
        shoreline_foam_range: picked(p.shoreline_foam_range, c.shoreline_foam_range),
        crest_foam_min: picked(p.crest_foam_min, c.crest_foam_min),
        crest_foam_max: picked(p.crest_foam_max, c.crest_foam_max),
        sparkle_intensity: picked(p.sparkle_intensity, c.sparkle_intensity),
        sparkle_threshold: picked(p.sparkle_threshold, c.sparkle_threshold),
        subsurface_multiplier: picked(p.subsurface_multiplier, c.subsurface_multiplier),
        fresnel_power: picked(p.fresnel_power, c.fresnel_power),
        fresnel_multiplier: picked(p.fresnel_multiplier, c.fresnel_multiplier),
        wave1_amplitude: picked(p.wave1_amplitude, c.wave1_amplitude),
        wave1_frequency: picked(p.wave1_frequency, c.wave1_frequency),
        wave1_speed: picked(p.wave1_speed, c.wave1_speed),
        wave1_steepness: picked(p.wave1_steepness, c.wave1_steepness),
        wave1_direction: picked(p.wave1_direction, c.wave1_direction),
        wave2_amplitude: picked(p.wave2_amplitude, c.wave2_amplitude),
        wave2_frequency: picked(p.wave2_frequency, c.wave2_frequency),
        wave2_speed: picked(p.wave2_speed, c.wave2_speed),
        wave2_steepness: picked(p.wave2_steepness, c.wave2_steepness),
        wave2_direction: picked(p.wave2_direction, c.wave2_direction),
        wave3_amplitude: picked(p.wave3_amplitude, c.wave3_amplitude),
        wave3_frequency: picked(p.wave3_frequency, c.wave3_frequency),
        wave3_speed: picked(p.wave3_speed, c.wave3_speed),
        wave3_steepness: picked(p.wave3_steepness, c.wave3_steepness),
        wave3_direction: picked(p.wave3_direction, c.wave3_direction),
    }
}

/// Picks an optional patch value over the current one.
fn pick<T: Copy>(o: &Option<T>, current: T) -> (r: T)
    ensures
        r == picked(*o, current),
{
    match o {
        Option::Some(v) => *v,
        Option::None => current,
    }
}

/// Picks an optional three-component color, widening it, over the current one.
fn pick_color(o: &Option<Vector3>, current: Color4) -> (r: Color4)
    ensures
        r == picked_color(*o, current),
{
    match o {
        Option::Some(v) => Color4::opaque(*v),
        Option::None => current,
    }
}

impl WaterConfig {
    /// The all-zero configuration, used where a water plane carries no
    /// persisted configuration yet.
    pub open spec fn spec_zero() -> WaterConfig {
        WaterConfig {
            shallow_color: Color4 { r: 0, g: 0, b: 0, a: 0 },
            medium_color: Color4 { r: 0, g: 0, b: 0, a: 0 },
            deep_color: Color4 { r: 0, g: 0, b: 0, a: 0 },
            ripple_amplitude_multiplier: 0,
            ripple_freq: 0,
            ripple_speed: 0,
            shoreline_foam_range: 0,
            crest_foam_min: 0,
            crest_foam_max: 0,
            sparkle_intensity: 0,
            sparkle_threshold: 0,
            subsurface_multiplier: 0,
            fresnel_power: 0,
            fresnel_multiplier: 0,
            wave1_amplitude: 0,
            wave1_frequency: 0,
            wave1_speed: 0,
            wave1_steepness: 0,
            wave1_direction: Vector2 { x: 0, y: 0 },
            wave2_amplitude: 0,
            wave2_frequency: 0,
            wave2_speed: 0,
            wave2_steepness: 0,
            wave2_direction: Vector2 { x: 0, y: 0 },
            wave3_amplitude: 0,
            wave3_frequency: 0,
            wave3_speed: 0,
            wave3_steepness: 0,
            wave3_direction: Vector2 { x: 0, y: 0 },
        }
    }

    /// Merges a partial patch into this configuration.
    pub fn merge(&self, p: &WaterPatch) -> (r: WaterConfig)
        ensures
            r == merged_water(*self, *p),
    {
        WaterConfig {
            shallow_color: pick_color(&p.shallow_color, self.shallow_color),
            medium_color: pick_color(&p.medium_color, self.medium_color),
            deep_color: pick_color(&p.deep_color, self.deep_color),
            ripple_amplitude_multiplier: pick(
                &p.ripple_amplitude_multiplier,
                self.ripple_amplitude_multiplier,
            ),
            ripple_freq: pick(&p.ripple_freq, self.ripple_freq),
            ripple_speed: pick(&p.ripple_speed, self.ripple_speed),
            shoreline_foam_range: pick(&p.shoreline_foam_range, self.shoreline_foam_range),
            crest_foam_min: pick(&p.crest_foam_min, self.crest_foam_min),
            crest_foam_max: pick(&p.crest_foam_max, self.crest_foam_max),
            sparkle_intensity: pick(&p.sparkle_intensity, self.sparkle_intensity),
            sparkle_threshold: pick(&p.sparkle_threshold, self.sparkle_threshold),
            subsurface_multiplier: pick(&p.subsurface_multiplier, self.subsurface_multiplier),
            fresnel_power: pick(&p.fresnel_power, self.fresnel_power),
            fresnel_multiplier: pick(&p.fresnel_multiplier, self.fresnel_multiplier),
            wave1_amplitude: pick(&p.wave1_amplitude, self.wave1_amplitude),
            wave1_frequency: pick(&p.wave1_frequency, self.wave1_frequency),
            wave1_speed: pick(&p.wave1_speed, self.wave1_speed),
            wave1_steepness: pick(&p.wave1_steepness, self.wave1_steepness),
            wave1_direction: pick(&p.wave1_direction, self.wave1_direction),
            wave2_amplitude: pick(&p.wave2_amplitude, self.wave2_amplitude),
            wave2_frequency: pick(&p.wave2_frequency, self.wave2_frequency),
            wave2_speed: pick(&p.wave2_speed, self.wave2_speed),
            wave2_steepness: pick(&p.wave2_steepness, self.wave2_steepness),
            wave2_direction: pick(&p.wave2_direction, self.wave2_direction),
            wave3_amplitude: pick(&p.wave3_amplitude, self.wave3_amplitude),
            wave3_frequency: pick(&p.wave3_frequency, self.wave3_frequency),
            wave3_speed: pick(&p.wave3_speed, self.wave3_speed),
            wave3_steepness: pick(&p.wave3_steepness, self.wave3_steepness),
            wave3_direction: pick(&p.wave3_direction, self.wave3_direction),
        }
    }
}

impl Default for WaterConfig {
    /// The all-zero configuration.
    fn default() -> (c: WaterConfig)
        ensures
            c == WaterConfig::spec_zero(),
    {
        WaterConfig {
            shallow_color: Color4::zero(),
            medium_color: Color4::zero(),
            deep_color: Color4::zero(),
            ripple_amplitude_multiplier: 0,
            ripple_freq: 0,
            ripple_speed: 0,
            shoreline_foam_range: 0,
            crest_foam_min: 0,
            crest_foam_max: 0,
            sparkle_intensity: 0,
            sparkle_threshold: 0,
            subsurface_multiplier: 0,
            fresnel_power: 0,
            fresnel_multiplier: 0,
            wave1_amplitude: 0,
            wave1_frequency: 0,
            wave1_speed: 0,
            wave1_steepness: 0,
            wave1_direction: Vector2 { x: 0, y: 0 },
            wave2_amplitude: 0,
            wave2_frequency: 0,
            wave2_speed: 0,
            wave2_steepness: 0,
            wave2_direction: Vector2 { x: 0, y: 0 },
            wave3_amplitude: 0,
            wave3_frequency: 0,
            wave3_speed: 0,
            wave3_steepness: 0,
            wave3_direction: Vector2 { x: 0, y: 0 },
        }
    }
}

impl WaterPatch {
    /// The patch that names no field at all.
    pub open spec fn spec_empty() -> WaterPatch {
        WaterPatch {
            shallow_color: Option::None,
            medium_color: Option::None,
            deep_color: Option::None,
            ripple_amplitude_multiplier: Option::None,
            ripple_freq: Option::None,
            ripple_speed: Option::None,
            shoreline_foam_range: Option::None,
            crest_foam_min: Option::None,
            crest_foam_max: Option::None,
            sparkle_intensity: Option::None,
            sparkle_threshold: Option::None,
            subsurface_multiplier: Option::None,
            fresnel_power: Option::None,
            fresnel_multiplier: Option::None,
            wave1_amplitude: Option::None,
            wave1_frequency: Option::None,
            wave1_speed: Option::None,
            wave1_steepness: Option::None,
            wave1_direction: Option::None,
            wave2_amplitude: Option::None,
            wave2_frequency: Option::None,
            wave2_speed: Option::None,
            wave2_steepness: Option::None,
            wave2_direction: Option::None,
            wave3_amplitude: Option::None,
            wave3_frequency: Option::None,
            wave3_speed: Option::None,
            wave3_steepness: Option::None,
            wave3_direction: Option::None,
        }
    }

    /// The patch that names no field at all.
    pub fn empty() -> (p: WaterPatch)
        ensures
            p == WaterPatch::spec_empty(),
    {
        WaterPatch {
            shallow_color: None,
            medium_color: None,
            deep_color: None,
            ripple_amplitude_multiplier: None,
            ripple_freq: None,
            ripple_speed: None,
            shoreline_foam_range: None,
            crest_foam_min: None,
            crest_foam_max: None,
            sparkle_intensity: None,
            sparkle_threshold: None,
            subsurface_multiplier: None,
            fresnel_power: None,
            fresnel_multiplier: None,
            wave1_amplitude: None,
            wave1_frequency: None,
            wave1_speed: None,
            wave1_steepness: None,
            wave1_direction: None,
            wave2_amplitude: None,
            wave2_frequency: None,
            wave2_speed: None,
            wave2_steepness: None,
            wave2_direction: None,
            wave3_amplitude: None,
            wave3_frequency: None,
            wave3_speed: None,
            wave3_steepness: None,
            wave3_direction: None,
        }
    }
}

/// Law: merging the empty patch changes nothing.
pub proof fn law_water_merge_empty(c: WaterConfig)
    ensures
        merged_water(c, WaterPatch::spec_empty()) == c,
{
}

/// Law: merging the same patch twice gives the same configuration as merging
/// it once.
pub proof fn law_water_merge_idempotent(c: WaterConfig, p: WaterPatch)
    ensures
        merged_water(merged_water(c, p), p) == merged_water(c, p),
{
}

/// Law: every field the patch does not name is left bit-for-bit unchanged.
pub proof fn law_water_merge_untouched_fields(c: WaterConfig, p: WaterPatch)
    ensures
        p.shallow_color is None ==> merged_water(c, p).shallow_color == c.shallow_color,
        p.medium_color is None ==> merged_water(c, p).medium_color == c.medium_color,
        p.deep_color is None ==> merged_water(c, p).deep_color == c.deep_color,
        p.ripple_amplitude_multiplier is None ==> merged_water(c, p).ripple_amplitude_multiplier
            == c.ripple_amplitude_multiplier,
        p.ripple_freq is None ==> merged_water(c, p).ripple_freq == c.ripple_freq,
        p.ripple_speed is None ==> merged_water(c, p).ripple_speed == c.ripple_speed,
        p.shoreline_foam_range is None ==> merged_water(c, p).shoreline_foam_range
            == c.shoreline_foam_range,
        p.crest_foam_min is None ==> merged_water(c, p).crest_foam_min == c.crest_foam_min,
        p.crest_foam_max is None ==> merged_water(c, p).crest_foam_max == c.crest_foam_max,
        p.sparkle_intensity is None ==> merged_water(c, p).sparkle_intensity
            == c.sparkle_intensity,
        p.sparkle_threshold is None ==> merged_water(c, p).sparkle_threshold
            == c.sparkle_threshold,
        p.subsurface_multiplier is None ==> merged_water(c, p).subsurface_multiplier
            == c.subsurface_multiplier,
        p.fresnel_power is None ==> merged_water(c, p).fresnel_power == c.fresnel_power,
        p.fresnel_multiplier is None ==> merged_water(c, p).fresnel_multiplier
            == c.fresnel_multiplier,
        p.wave1_amplitude is None ==> merged_water(c, p).wave1_amplitude == c.wave1_amplitude,
        p.wave1_frequency is None ==> merged_water(c, p).wave1_frequency == c.wave1_frequency,
        p.wave1_speed is None ==> merged_water(c, p).wave1_speed == c.wave1_speed,
        p.wave1_steepness is None ==> merged_water(c, p).wave1_steepness == c.wave1_steepness,
        p.wave1_direction is None ==> merged_water(c, p).wave1_direction == c.wave1_direction,
        p.wave2_amplitude is None ==> merged_water(c, p).wave2_amplitude == c.wave2_amplitude,
        p.wave2_frequency is None ==> merged_water(c, p).wave2_frequency == c.wave2_frequency,
        p.wave2_speed is None ==> merged_water(c, p).wave2_speed == c.wave2_speed,
        p.wave2_steepness is None ==> merged_water(c, p).wave2_steepness == c.wave2_steepness,
        p.wave2_direction is None ==> merged_water(c, p).wave2_direction == c.wave2_direction,
        p.wave3_amplitude is None ==> merged_water(c, p).wave3_amplitude == c.wave3_amplitude,
        p.wave3_frequency is None ==> merged_water(c, p).wave3_frequency == c.wave3_frequency,
        p.wave3_speed is None ==> merged_water(c, p).wave3_speed == c.wave3_speed,
        p.wave3_steepness is None ==> merged_water(c, p).wave3_steepness == c.wave3_steepness,
        p.wave3_direction is None ==> merged_water(c, p).wave3_direction == c.wave3_direction,
{
}

/// Law: a field set by one patch keeps its value across a later merge whose
/// patch does not name that field — successive partial merges are
/// independent field by field.
pub proof fn law_water_merge_field_independence(c: WaterConfig, p: WaterPatch, q: WaterPatch)
    ensures
        p.wave1_amplitude matches Some(v) ==> q.wave1_amplitude is None
            ==> merged_water(merged_water(c, p), q).wave1_amplitude == v,
        p.wave1_frequency matches Some(v) ==> q.wave1_frequency is None
            ==> merged_water(merged_water(c, p), q).wave1_frequency == v,
        p.wave1_speed matches Some(v) ==> q.wave1_speed is None
            ==> merged_water(merged_water(c, p), q).wave1_speed == v,
        p.wave1_steepness matches Some(v) ==> q.wave1_steepness is None
            ==> merged_water(merged_water(c, p), q).wave1_steepness == v,
        p.wave1_direction matches Some(v) ==> q.wave1_direction is None
            ==> merged_water(merged_water(c, p), q).wave1_direction == v,
        p.wave2_amplitude matches Some(v) ==> q.wave2_amplitude is None
            ==> merged_water(merged_water(c, p), q).wave2_amplitude == v,
        p.wave2_frequency matches Some(v) ==> q.wave2_frequency is None
            ==> merged_water(merged_water(c, p), q).wave2_frequency == v,
        p.wave2_speed matches Some(v) ==> q.wave2_speed is None
            ==> merged_water(merged_water(c, p), q).wave2_speed == v,
        p.wave2_steepness matches Some(v) ==> q.wave2_steepness is None
            ==> merged_water(merged_water(c, p), q).wave2_steepness == v,
        p.wave2_direction matches Some(v) ==> q.wave2_direction is None
            ==> merged_water(merged_water(c, p), q).wave2_direction == v,
        p.wave3_amplitude matches Some(v) ==> q.wave3_amplitude is None
            ==> merged_water(merged_water(c, p), q).wave3_amplitude == v,
        p.wave3_frequency matches Some(v) ==> q.wave3_frequency is None
            ==> merged_water(merged_water(c, p), q).wave3_frequency == v,
        p.wave3_speed matches Some(v) ==> q.wave3_speed is None
            ==> merged_water(merged_water(c, p), q).wave3_speed == v,
        p.wave3_steepness matches Some(v) ==> q.wave3_steepness is None
            ==> merged_water(merged_water(c, p), q).wave3_steepness == v,
        p.wave3_direction matches Some(v) ==> q.wave3_direction is None
            ==> merged_water(merged_water(c, p), q).wave3_direction == v,
        p.ripple_amplitude_multiplier matches Some(v) ==> q.ripple_amplitude_multiplier is None
            ==> merged_water(merged_water(c, p), q).ripple_amplitude_multiplier == v,
        p.ripple_freq matches Some(v) ==> q.ripple_freq is None
            ==> merged_water(merged_water(c, p), q).ripple_freq == v,
        p.ripple_speed matches Some(v) ==> q.ripple_speed is None
            ==> merged_water(merged_water(c, p), q).ripple_speed == v,
        p.shoreline_foam_range matches Some(v) ==> q.shoreline_foam_range is None
            ==> merged_water(merged_water(c, p), q).shoreline_foam_range == v,
        p.crest_foam_min matches Some(v) ==> q.crest_foam_min is None
            ==> merged_water(merged_water(c, p), q).crest_foam_min == v,
        p.crest_foam_max matches Some(v) ==> q.crest_foam_max is None
            ==> merged_water(merged_water(c, p), q).crest_foam_max == v,
        p.sparkle_intensity matches Some(v) ==> q.sparkle_intensity is None
            ==> merged_water(merged_water(c, p), q).sparkle_intensity == v,
        p.sparkle_threshold matches Some(v) ==> q.sparkle_threshold is None
            ==> merged_water(merged_water(c, p), q).sparkle_threshold == v,
        p.subsurface_multiplier matches Some(v) ==> q.subsurface_multiplier is None
            ==> merged_water(merged_water(c, p), q).subsurface_multiplier == v,
        p.fresnel_power matches Some(v) ==> q.fresnel_power is None
            ==> merged_water(merged_water(c, p), q).fresnel_power == v,
        p.fresnel_multiplier matches Some(v) ==> q.fresnel_multiplier is None
            ==> merged_water(merged_water(c, p), q).fresnel_multiplier == v,
        p.shallow_color matches Some(v) ==> q.shallow_color is None
            ==> merged_water(merged_water(c, p), q).shallow_color == Color4::opaque_spec(v),
        p.medium_color matches Some(v) ==> q.medium_color is None
            ==> merged_water(merged_water(c, p), q).medium_color == Color4::opaque_spec(v),
        p.deep_color matches Some(v) ==> q.deep_color is None
            ==> merged_water(merged_water(c, p), q).deep_color == Color4::opaque_spec(v),
{
}

} // verus!
