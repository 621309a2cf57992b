//! The authoritative scene document: an ordered sequence of levels, each an
//! ordered sequence of placed components. Component ids are unique across
//! the whole document, and a component's kind-specific payload always
//! matches its kind tag.

use vstd::prelude::*;

use crate::scalars::{Color4, Scalar, Vector3};
use crate::water::WaterConfig;

verus! {

/// Shared placement properties every component carries.
#[derive(Debug)]
pub struct GenericProperties {
    pub name: String,
    pub position: Vector3,
    pub rotation: Vector3,
    pub scale: Vector3,
}

/// The kind tag of a placed component.
#[derive(Clone, Copy, Debug, PartialEq, Eq, Structural)]
pub enum ComponentKind {
    Model,
    NPC,
    Landscape,
    PointLight,
    WaterPlane,
    Collectable,
    PlayerCharacter,
}

/// Payload of a model component.
#[derive(Debug)]
pub struct ModelProperties {
    pub asset_id: Option<String>,
}

/// Payload of a non-player character component.
#[derive(Debug)]
pub struct NPCProperties {
    pub model_id: String,
}

/// Payload of a landscape component: optional texture references.
#[derive(Debug)]
pub struct LandscapeProperties {
    pub primary_texture_id: Option<String>,
    pub rockmap_texture_id: Option<String>,
    pub soil_texture_id: Option<String>,
    pub primary_pbr_texture_id: Option<String>,
    pub rockmap_pbr_texture_id: Option<String>,
    pub soil_pbr_texture_id: Option<String>,
}

/// Payload of a point light component.
#[derive(Clone, Copy, Debug, PartialEq, Eq, Structural)]
pub struct LightProperties {
    pub intensity: Scalar,
    pub color: Color4,
}

/// What a collectable component yields when picked up.
#[derive(Clone, Copy, Debug, PartialEq, Eq, Structural)]
pub enum CollectableType {
    Item,
    Weapon,
    Armor,
}

/// Payload of a collectable component.
#[derive(Debug)]
pub struct CollectableProperties {
    pub model_id: Option<String>,
    pub collectable_type: Option<CollectableType>,
    pub stat_id: Option<String>,
}

/// Payload of a player character component.
#[derive(Debug)]
pub struct PlayerProperties {
    pub model_id: Option<String>,
    pub default_weapon_id: Option<String>,
}

/// Optional scatter settings any component may carry.
#[derive(Clone, Copy, Debug, PartialEq, Eq, Structural)]
pub struct ScatterSettings {
    pub density: Scalar,
    pub radius: Scalar,
    pub seed: u32,
}

/// The kind-specific payload of a component; exactly one variant is
/// populated, and it must match the component's kind tag.
#[derive(Debug)]
pub enum ComponentPayload {
    Model(ModelProperties),
    NPC(NPCProperties),
    Landscape(LandscapeProperties),
    PointLight(LightProperties),
    WaterPlane(WaterConfig),
    Collectable(CollectableProperties),
    PlayerCharacter(PlayerProperties),
}

/// One placed component of the scene.
#[derive(Debug)]
pub struct ComponentData {
    pub id: String,
    pub generic_properties: GenericProperties,
    pub kind: Option<ComponentKind>,
    pub payload: Option<ComponentPayload>,
    pub scatter: Option<ScatterSettings>,
}

/// One level of the scene: an ordered sequence of components.
#[derive(Debug)]
pub struct Level {
    pub components: Vec<ComponentData>,
}

/// The persisted scene description: an ordered sequence of levels.
#[derive(Debug)]
pub struct SceneDocument {
    pub levels: Vec<Level>,
}

impl Clone for GenericProperties {
    /// Clones the properties; the copy equals the original.
    fn clone(&self) -> (r: Self)
        ensures
            r == *self,
    {
        GenericProperties {
            name: self.name.clone(),
            position: self.position,
            rotation: self.rotation,
            scale: self.scale,
        }
    }
}

/// Clones an optional string; the copy equals the original.
fn clone_opt_string(o: &Option<String>) -> (r: Option<String>)
    ensures
        r == *o,
{
    match o {
        Option::Some(s) => Option::Some(s.clone()),
        Option::None => Option::None,
    }
}

impl Clone for ModelProperties {
    /// Clones the payload; the copy equals the original.
    fn clone(&self) -> (r: Self)
        ensures
            r == *self,
    {
        ModelProperties { asset_id: clone_opt_string(&self.asset_id) }
    }
}

impl Clone for NPCProperties {
    /// Clones the payload; the copy equals the original.
    fn clone(&self) -> (r: Self)
        ensures
            r == *self,
    {
        NPCProperties { model_id: self.model_id.clone() }
    }
}

impl Clone for LandscapeProperties {
    /// Clones the payload; the copy equals the original.
    fn clone(&self) -> (r: Self)
        ensures
            r == *self,
    {
        LandscapeProperties {
            primary_texture_id: clone_opt_string(&self.primary_texture_id),
            rockmap_texture_id: clone_opt_string(&self.rockmap_texture_id),
            soil_texture_id: clone_opt_string(&self.soil_texture_id),
            primary_pbr_texture_id: clone_opt_string(&self.primary_pbr_texture_id),
            rockmap_pbr_texture_id: clone_opt_string(&self.rockmap_pbr_texture_id),
            soil_pbr_texture_id: clone_opt_string(&self.soil_pbr_texture_id),
        }
    }
}

impl Clone for CollectableProperties {
    /// Clones the payload; the copy equals the original.
    fn clone(&self) -> (r: Self)
        ensures
            r == *self,
    {
        CollectableProperties {
            model_id: clone_opt_string(&self.model_id),
            collectable_type: self.collectable_type,
            stat_id: clone_opt_string(&self.stat_id),
        }
    }
}

impl Clone for PlayerProperties {
    /// Clones the payload; the copy equals the original.
    fn clone(&self) -> (r: Self)
        ensures
            r == *self,
    {
        PlayerProperties {
            model_id: clone_opt_string(&self.model_id),
            default_weapon_id: clone_opt_string(&self.default_weapon_id),
        }
    }
}

impl Clone for ComponentPayload {
    /// Clones the payload; the copy equals the original.
    fn clone(&self) -> (r: Self)
        ensures
            r == *self,
    {
        match self {
            ComponentPayload::Model(p) => ComponentPayload::Model(p.clone()),
            ComponentPayload::NPC(p) => ComponentPayload::NPC(p.clone()),
            ComponentPayload::Landscape(p) => ComponentPayload::Landscape(p.clone()),
            ComponentPayload::PointLight(p) => ComponentPayload::PointLight(*p),
            ComponentPayload::WaterPlane(c) => ComponentPayload::WaterPlane(*c),
            ComponentPayload::Collectable(p) => ComponentPayload::Collectable(p.clone()),
            ComponentPayload::PlayerCharacter(p) => ComponentPayload::PlayerCharacter(p.clone()),
        }
    }
}

impl Clone for ComponentData {
    /// Clones the component; the copy equals the original.
    fn clone(&self) -> (r: Self)
        ensures
            r == *self,
    {
        let payload: Option<ComponentPayload> = match &self.payload {
            Option::Some(p) => Option::Some(p.clone()),
            Option::None => Option::None,
        };
        ComponentData {
            id: self.id.clone(),
            generic_properties: self.generic_properties.clone(),
            kind: self.kind,
            payload,
            scatter: self.scatter,
        }
    }
}

impl Clone for Level {
    /// Clones the level; the copy equals the original component for
    /// component.
    fn clone(&self) -> (r: Self)
        ensures
            r.components@ == self.components@,
    {
        let mut components: Vec<ComponentData> = Vec::new();
        let mut i: usize = 0;
        while i < self.components.len()
            invariant
                i <= self.components@.len(),
                components@ == self.components@.subrange(0, i as int),
            decreases self.components@.len() - i,
        {
            components.push(self.components[i].clone());
            proof {
                assert(components@ =~= self.components@.subrange(0, i + 1 as int));
            }
            i = i + 1;
        }
        proof {
            assert(components@ =~= self.components@);
        }
        Level { components }
    }
}

/// Whether two documents hold the same components, level for level and
/// position for position.
pub open spec fn same_document(a: &SceneDocument, b: &SceneDocument) -> bool {
    &&& a.levels@.len() == b.levels@.len()
    &&& forall|li: int|
        0 <= li < a.levels@.len()
            ==> #[trigger] a.levels@[li].components@ == b.levels@[li].components@
}

impl Clone for SceneDocument {
    /// Clones the document; the copy holds the same components as the
    /// original, level for level.
    fn clone(&self) -> (r: Self)
        ensures
            same_document(&r, self),
    {
        let mut levels: Vec<Level> = Vec::new();
        let mut i: usize = 0;
        while i < self.levels.len()
            invariant
                i <= self.levels@.len(),
                levels@.len() == i,
                forall|j: int|
                    0 <= j < i ==> #[trigger] levels@[j].components@ == self.levels@[j].components@,
            decreases self.levels@.len() - i,
        {
            let l = self.levels[i].clone();
            levels.push(l);
            i = i + 1;
        }
        SceneDocument { levels }
    }
}

/// The component stored at a level index and a component index.
pub open spec fn comp_at(d: &SceneDocument, li: int, ci: int) -> ComponentData {
    d.levels@[li].components@[ci]
}

/// Whether a level index and component index name a stored component.
pub open spec fn valid_index(d: &SceneDocument, li: int, ci: int) -> bool {
    0 <= li < d.levels@.len() && 0 <= ci < d.levels@[li].components@.len()
}

/// Whether a component is the water surface.
pub open spec fn is_water_component(c: ComponentData) -> bool {
    c.kind == Some(ComponentKind::WaterPlane)
}

/// Whether some component of the document carries this id.
pub open spec fn id_in_doc(d: &SceneDocument, id: Seq<char>) -> bool {
    exists|li: int, ci: int| valid_index(d, li, ci) && #[trigger] comp_at(d, li, ci).id@ == id
}

impl ComponentData {
    /// Whether the populated payload variant matches the kind tag.
    pub open spec fn payload_matches_kind(&self) -> bool {
        match self.payload {
            Option::None => true,
            Option::Some(pl) => match self.kind {
                Option::None => false,
                Option::Some(k) => match pl {
                    ComponentPayload::Model(_) => k == ComponentKind::Model,
                    ComponentPayload::NPC(_) => k == ComponentKind::NPC,
                    ComponentPayload::Landscape(_) => k == ComponentKind::Landscape,
                    ComponentPayload::PointLight(_) => k == ComponentKind::PointLight,
                    ComponentPayload::WaterPlane(_) => k == ComponentKind::WaterPlane,
                    ComponentPayload::Collectable(_) => k == ComponentKind::Collectable,
                    ComponentPayload::PlayerCharacter(_) => k == ComponentKind::PlayerCharacter,
                },
            },
        }
    }
}

impl SceneDocument {
    /// Invariant: no two components of the document share an id.
    pub open spec fn unique_ids(&self) -> bool {
        forall|li: int, ci: int, lj: int, cj: int|
            #![trigger comp_at(self, li, ci), comp_at(self, lj, cj)]
            valid_index(self, li, ci) && valid_index(self, lj, cj) && (li != lj || ci != cj)
                ==> comp_at(self, li, ci).id@ != comp_at(self, lj, cj).id@
    }

    /// Invariant: every populated payload matches its component's kind tag.
    pub open spec fn payloads_match(&self) -> bool {
        forall|li: int, ci: int|
            valid_index(self, li, ci) ==> #[trigger] comp_at(self, li, ci).payload_matches_kind()
    }

    /// Well-formedness of the document.
    pub open spec fn wf(&self) -> bool {
        self.unique_ids() && self.payloads_match()
    }

    /// The number of components stored across all levels.
    pub open spec fn spec_component_total(&self) -> nat {
        seq_component_total(self.levels@)
    }

    /// A document with no levels at all.
    pub fn empty() -> (d: SceneDocument)
        ensures
            d.wf(),
            d.levels@.len() == 0,
            d.spec_component_total() == 0,
    {
        SceneDocument { levels: Vec::new() }
    }

    /// Finds the component carrying an id, scanning levels in order and each
    /// level's components in order. Returns its indices, or `None` when no
    /// component of the document carries the id.
    pub fn find_component(&self, component_id: &str) -> (r: Option<(usize, usize)>)
        ensures
            match r {
                Option::Some(pair) => valid_index(self, pair.0 as int, pair.1 as int)
                    && comp_at(self, pair.0 as int, pair.1 as int).id@ == component_id@,
                Option::None => !id_in_doc(self, component_id@),
            },
    {
        let key: String = component_id.to_owned();
        let mut li: usize = 0;
        while li < self.levels.len()
            invariant
                li <= self.levels@.len(),
                key@ == component_id@,
                forall|l: int, c: int|
                    0 <= l < li && valid_index(self, l, c)
                        ==> #[trigger] comp_at(self, l, c).id@ != component_id@,
            decreases self.levels@.len() - li,
        {
            let level = &self.levels[li];
            let mut ci: usize = 0;
            while ci < level.components.len()
                invariant
                    li < self.levels@.len(),
                    ci <= level.components@.len(),
                    *level == self.levels@[li as int],
                    key@ == component_id@,
                    forall|c: int|
                        0 <= c < ci
                            ==> #[trigger] comp_at(self, li as int, c).id@ != component_id@,
                decreases level.components@.len() - ci,
            {
                if level.components[ci].id == key {
                    return Option::Some((li, ci));
                }
                ci = ci + 1;
            }
            li = li + 1;
        }
        Option::None
    }

    /// The number of components stored across all levels.
    pub fn component_total(&self) -> (n: usize)
        requires
            self.spec_component_total() <= usize::MAX,
        ensures
            n == self.spec_component_total(),
    {
        let mut n: usize = 0;
        let mut li: usize = 0;
        while li < self.levels.len()
            invariant
                li <= self.levels@.len(),
                self.spec_component_total() <= usize::MAX,
                n == seq_component_total(self.levels@.subrange(0, li as int)),
            decreases self.levels@.len() - li,
        {
            proof {
                lemma_seq_component_total_prefix(self.levels@, li as int);
            }
            n = n + self.levels[li].components.len();
            proof {
                assert(self.levels@.subrange(0, li + 1 as int).drop_last()
                    =~= self.levels@.subrange(0, li as int));
            }
            li = li + 1;
        }
        proof {
            assert(self.levels@.subrange(0, self.levels@.len() as int) =~= self.levels@);
        }
        n
    }
}

/// The number of components held by a sequence of levels.
pub open spec fn seq_component_total(levels: Seq<Level>) -> nat
    decreases levels.len(),
{
    if levels.len() == 0 {
        0
    } else {
        seq_component_total(levels.drop_last()) + levels.last().components@.len()
    }
}

/// The running component total of a prefix never exceeds the whole
/// document's total.
proof fn lemma_seq_component_total_prefix(levels: Seq<Level>, i: int)
    requires
        0 <= i < levels.len(),
    ensures
        seq_component_total(levels.subrange(0, i)) + levels[i].components@.len()
            == seq_component_total(levels.subrange(0, i + 1)),
        seq_component_total(levels.subrange(0, i + 1)) <= seq_component_total(levels),
    decreases levels.len(),
{
    assert(levels.subrange(0, i + 1).drop_last() =~= levels.subrange(0, i));
    assert(levels.subrange(0, i + 1).last() == levels[i]);
    if i + 1 < levels.len() {
        lemma_seq_component_total_suffix(levels, i + 1);
    } else {
        assert(levels.subrange(0, i + 1) =~= levels);
    }
}

/// Extending a prefix of levels never decreases the component total.
proof fn lemma_seq_component_total_suffix(levels: Seq<Level>, i: int)
    requires
        0 <= i <= levels.len(),
    ensures
        seq_component_total(levels.subrange(0, i)) <= seq_component_total(levels),
    decreases levels.len() - i,
{
    if i < levels.len() {
        assert(levels.subrange(0, i + 1).drop_last() =~= levels.subrange(0, i));
        lemma_seq_component_total_suffix(levels, i + 1);
    } else {
        assert(levels.subrange(0, i) =~= levels);
    }
}

} // verus!
