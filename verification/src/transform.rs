//! Mesh transforms and the partial transform patch carried by the
//! `transformObject` mutation command.

use vstd::prelude::*;

use crate::scalars::Vector3;

verus! {

/// The transform of one mirrored mesh: position, rotation and scale.
#[derive(Clone, Copy, Debug, PartialEq, Eq, Structural)]
pub struct Transform3 {
    pub position: Vector3,
    pub rotation: Vector3,
    pub scale: Vector3,
}

/// A partial transform update: each present field overwrites the matching
/// transform field, absent fields leave it untouched.
#[derive(Clone, Copy, Debug)]
pub struct TransformPatch {
    pub translation: Option<Vector3>,
    pub rotation: Option<Vector3>,
    pub scale: Option<Vector3>,
}

/// The transform that results from applying a patch: present fields replace
/// the old value, absent fields are kept bit-for-bit.
pub open spec fn applied_transform(t: Transform3, p: TransformPatch) -> Transform3 {
    Transform3 {
        position: match p.translation {
            Option::Some(v) => v,
            Option::None => t.position,
        },
        rotation: match p.rotation {
            Option::Some(v) => v,
            Option::None => t.rotation,
        },
        scale: match p.scale {
            Option::Some(v) => v,
            Option::None => t.scale,
        },
    }
}

impl Transform3 {
    /// Applies a partial patch to this transform.
    pub fn apply_patch(self, p: &TransformPatch) -> (r: Transform3)
        ensures
            r == applied_transform(self, *p),
    {
        Transform3 {
            position: match p.translation {
                Option::Some(v) => v,
                Option::None => self.position,
            },
            rotation: match p.rotation {
                Option::Some(v) => v,
                Option::None => self.rotation,
            },
            scale: match p.scale {
                Option::Some(v) => v,
                Option::None => self.scale,
            },
        }
    }
}

/// Law: applying the same transform patch twice gives the same transform as
/// applying it once.
pub proof fn law_transform_patch_idempotent(t: Transform3, p: TransformPatch)
    ensures
        applied_transform(applied_transform(t, p), p) == applied_transform(t, p),
{
}

/// Law: a field that the patch does not mention is left bit-for-bit
/// unchanged; in particular a rotation-only patch keeps position and scale.
pub proof fn law_transform_patch_untouched_fields(t: Transform3, p: TransformPatch)
    ensures
        p.translation is None ==> applied_transform(t, p).position == t.position,
        p.rotation is None ==> applied_transform(t, p).rotation == t.rotation,
        p.scale is None ==> applied_transform(t, p).scale == t.scale,
{
}

/// Law: every field that the patch does mention takes the patched value, and
/// all of them do so in the one resulting transform — there is no transform
/// in which only part of a patch has landed.
pub proof fn law_transform_patch_all_fields_at_once(t: Transform3, p: TransformPatch)
    ensures
        p.translation matches Some(v) ==> applied_transform(t, p).position == v,
        p.rotation matches Some(v) ==> applied_transform(t, p).rotation == v,
        p.scale matches Some(v) ==> applied_transform(t, p).scale == v,
{
}

} // verus!
