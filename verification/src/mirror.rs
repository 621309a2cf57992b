//! The renderer mirror: a GPU-oriented shadow of the scene document. Every
//! non-water component is mirrored as a render entry whose mesh transforms
//! equal the component's placement properties; the water surface is
//! mirrored as a dedicated entry holding the shader configuration backed by
//! a GPU uniform buffer.
//!
//! Each mirrored entry carries a ghost record of the document position it
//! shadows; well-formedness ties every entry to its component and every
//! component to an entry, so no side ever holds an orphaned id.

use vstd::prelude::*;

use crate::document::{
    comp_at, is_water_component, valid_index, ComponentData, ComponentPayload, GenericProperties,
    SceneDocument,
};
use crate::scalars::Vector3;
use crate::transform::Transform3;
use crate::water::WaterConfig;

verus! {

/// One mirrored mesh: its world transform.
#[derive(Clone, Copy, Debug, PartialEq, Eq, Structural)]
pub struct MeshEntry {
    pub transform: Transform3,
}

/// The live render entry of one non-water component.
#[derive(Debug)]
pub struct RenderEntry {
    pub id: String,
    pub meshes: Vec<MeshEntry>,
}

/// The live render entry of the water surface: the configuration the
/// document agrees on, and the copy last uploaded to the GPU uniform
/// buffer. A pending flag schedules a whole-struct upload for the next
/// render tick.
#[derive(Debug)]
pub struct WaterEntry {
    pub id: String,
    pub config: WaterConfig,
    pub uploaded: WaterConfig,
    pub pending_upload: bool,
}

/// The editor camera.
#[derive(Clone, Copy, Debug, PartialEq, Eq, Structural)]
pub struct Camera {
    pub position: Vector3,
    pub direction: Vector3,
    pub viewport_width: u32,
    pub viewport_height: u32,
}

/// The GPU-oriented shadow of the document. The ghost `model_sources` and
/// `water_sources` record, entry for entry, which document position each
/// mirrored entry shadows.
pub struct RendererMirror {
    pub models: Vec<RenderEntry>,
    pub water_planes: Vec<WaterEntry>,
    pub camera: Camera,
    pub model_sources: Ghost<Seq<(int, int)>>,
    pub water_sources: Ghost<Seq<(int, int)>>,
}

/// The placement transform a component's shared properties describe.
pub open spec fn transform_of(g: GenericProperties) -> Transform3 {
    Transform3 { position: g.position, rotation: g.rotation, scale: g.scale }
}

/// Reads the placement transform out of a component's shared properties.
pub fn transform_of_exec(g: &GenericProperties) -> (t: Transform3)
    ensures
        t == transform_of(*g),
{
    Transform3 { position: g.position, rotation: g.rotation, scale: g.scale }
}

/// The water configuration a component persists, or the all-zero
/// configuration where it persists none yet.
pub open spec fn water_config_of(c: ComponentData) -> WaterConfig {
    match c.payload {
        Option::Some(ComponentPayload::WaterPlane(cfg)) => cfg,
        _ => WaterConfig::spec_zero(),
    }
}

/// Whether no two recorded source positions coincide.
pub open spec fn distinct_pairs(s: Seq<(int, int)>) -> bool {
    forall|i: int, j: int| 0 <= i < j < s.len() ==> s[i] != s[j]
}

/// Whether a document position lies strictly before the cursor position
/// `(li, ci)` in traversal order.
pub open spec fn pair_before(li: int, ci: int, p: (int, int)) -> bool {
    p.0 < li || (p.0 == li && p.1 < ci)
}

/// Whether model entry `mi` correctly shadows its recorded document
/// position: ids agree, the component is not the water surface, and every
/// mesh transform equals the component's placement properties.
pub open spec fn model_entry_ok(
    models: Seq<RenderEntry>,
    sources: Seq<(int, int)>,
    d: &SceneDocument,
    mi: int,
) -> bool {
    let li = sources[mi].0;
    let ci = sources[mi].1;
    &&& valid_index(d, li, ci)
    &&& !is_water_component(comp_at(d, li, ci))
    &&& models[mi].id@ == comp_at(d, li, ci).id@
    &&& forall|k: int|
        0 <= k < models[mi].meshes@.len()
            ==> models[mi].meshes@[k].transform == transform_of(
                comp_at(d, li, ci).generic_properties,
            )
}

/// Whether water entry `wi` correctly shadows its recorded document
/// position: ids agree, the component is the water surface, a persisted
/// configuration agrees with the mirrored one, and a non-pending entry has
/// its configuration uploaded.
pub open spec fn water_entry_ok(
    waters: Seq<WaterEntry>,
    sources: Seq<(int, int)>,
    d: &SceneDocument,
    wi: int,
) -> bool {
    let li = sources[wi].0;
    let ci = sources[wi].1;
    &&& valid_index(d, li, ci)
    &&& is_water_component(comp_at(d, li, ci))
    &&& waters[wi].id@ == comp_at(d, li, ci).id@
    &&& (comp_at(d, li, ci).payload matches Some(ComponentPayload::WaterPlane(cfg))
        ==> waters[wi].config == cfg)
    &&& (!waters[wi].pending_upload ==> waters[wi].uploaded == waters[wi].config)
}

/// Whether a mirror is a faithful shadow of a document: every entry
/// shadows a distinct document component of the right kind, and every
/// document component is shadowed by an entry.
pub open spec fn mirror_matches(m: &RendererMirror, d: &SceneDocument) -> bool {
    &&& m.model_sources@.len() == m.models@.len()
    &&& m.water_sources@.len() == m.water_planes@.len()
    &&& distinct_pairs(m.model_sources@)
    &&& distinct_pairs(m.water_sources@)
    &&& forall|mi: int|
        0 <= mi < m.models@.len() ==> #[trigger] model_entry_ok(m.models@, m.model_sources@, d, mi)
    &&& forall|wi: int|
        0 <= wi < m.water_planes@.len()
            ==> #[trigger] water_entry_ok(m.water_planes@, m.water_sources@, d, wi)
    &&& forall|li: int, ci: int|
        #![trigger comp_at(d, li, ci)]
        valid_index(d, li, ci) && !is_water_component(comp_at(d, li, ci))
            ==> m.model_sources@.contains((li, ci))
    &&& forall|li: int, ci: int|
        #![trigger comp_at(d, li, ci)]
        valid_index(d, li, ci) && is_water_component(comp_at(d, li, ci))
            ==> m.water_sources@.contains((li, ci))
}

impl RendererMirror {
    /// Builds the mirror of a document: one render entry per non-water
    /// component, one water entry per water component, a camera sized to
    /// the viewport. Every entry starts synchronized with its component and
    /// every water entry starts uploaded.
    pub fn from_document(d: &SceneDocument, width: u32, height: u32) -> (m: RendererMirror)
        ensures
            mirror_matches(&m, d),
            m.camera == (Camera {
                position: Vector3 { x: 0u32, y: 0u32, z: 0u32 },
                direction: Vector3 { x: 0u32, y: 0u32, z: 0u32 },
                viewport_width: width,
                viewport_height: height,
            }),
            forall|wi: int|
                0 <= wi < m.water_planes@.len() ==> !m.water_planes@[wi].pending_upload,
    {
        let mut models: Vec<RenderEntry> = Vec::new();
        let mut water_planes: Vec<WaterEntry> = Vec::new();
        let ghost mut msrc: Seq<(int, int)> = Seq::empty();
        let ghost mut wsrc: Seq<(int, int)> = Seq::empty();

        let mut li: usize = 0;
        while li < d.levels.len()
            invariant
                li <= d.levels@.len(),
                models@.len() == msrc.len(),
                water_planes@.len() == wsrc.len(),
                distinct_pairs(msrc),
                distinct_pairs(wsrc),
                forall|mi: int|
                    0 <= mi < models@.len() ==> #[trigger] model_entry_ok(models@, msrc, d, mi),
                forall|wi: int|
                    0 <= wi < water_planes@.len()
                        ==> #[trigger] water_entry_ok(water_planes@, wsrc, d, wi),
                forall|wi: int|
                    0 <= wi < water_planes@.len() ==> !water_planes@[wi].pending_upload,
                forall|idx: int|
                    0 <= idx < msrc.len() ==> pair_before(li as int, 0, #[trigger] msrc[idx]),
                forall|idx: int|
                    0 <= idx < wsrc.len() ==> pair_before(li as int, 0, #[trigger] wsrc[idx]),
                forall|l: int, c: int|
                    #![trigger comp_at(d, l, c)]
                    valid_index(d, l, c) && pair_before(li as int, 0, (l, c))
                        && !is_water_component(comp_at(d, l, c)) ==> msrc.contains((l, c)),
                forall|l: int, c: int|
                    #![trigger comp_at(d, l, c)]
                    valid_index(d, l, c) && pair_before(li as int, 0, (l, c))
                        && is_water_component(comp_at(d, l, c)) ==> wsrc.contains((l, c)),
            decreases d.levels@.len() - li,
        {
            let level = &d.levels[li];
            let mut ci: usize = 0;
            while ci < level.components.len()
                invariant
                    li < d.levels@.len(),
                    ci <= level.components@.len(),
                    *level == d.levels@[li as int],
                    models@.len() == msrc.len(),
                    water_planes@.len() == wsrc.len(),
                    distinct_pairs(msrc),
                    distinct_pairs(wsrc),
                    forall|mi: int|
                        0 <= mi < models@.len() ==> #[trigger] model_entry_ok(models@, msrc, d, mi),
                    forall|wi: int|
                        0 <= wi < water_planes@.len()
                            ==> #[trigger] water_entry_ok(water_planes@, wsrc, d, wi),
                    forall|wi: int|
                        0 <= wi < water_planes@.len() ==> !water_planes@[wi].pending_upload,
                    forall|idx: int|
                        0 <= idx < msrc.len()
                            ==> pair_before(li as int, ci as int, #[trigger] msrc[idx]),
                    forall|idx: int|
                        0 <= idx < wsrc.len()
                            ==> pair_before(li as int, ci as int, #[trigger] wsrc[idx]),
                    forall|l: int, c: int|
                        #![trigger comp_at(d, l, c)]
                        valid_index(d, l, c) && pair_before(li as int, ci as int, (l, c))
                            && !is_water_component(comp_at(d, l, c)) ==> msrc.contains((l, c)),
                    forall|l: int, c: int|
                        #![trigger comp_at(d, l, c)]
                        valid_index(d, l, c) && pair_before(li as int, ci as int, (l, c))
                            && is_water_component(comp_at(d, l, c)) ==> wsrc.contains((l, c)),
                decreases level.components@.len() - ci,
            {
                let comp = &level.components[ci];
                proof {
                    assert(*comp == comp_at(d, li as int, ci as int));
                }
                let is_water = match comp.kind {
                    Option::Some(k) => k == crate::document::ComponentKind::WaterPlane,
                    Option::None => false,
                };
                if is_water {
                    let config = match &comp.payload {
                        Option::Some(ComponentPayload::WaterPlane(cfg)) => *cfg,
                        _ => WaterConfig::default(),
                    };
                    let entry = WaterEntry {
                        id: comp.id.clone(),
                        config,
                        uploaded: config,
                        pending_upload: false,
                    };
                    let ghost old_waters = water_planes@;
                    let ghost old_wsrc = wsrc;
                    water_planes.push(entry);
                    proof {
                        wsrc = wsrc.push((li as int, ci as int));
                        assert forall|wi: int| 0 <= wi < water_planes@.len()
                            implies #[trigger] water_entry_ok(water_planes@, wsrc, d, wi) by {
                            if wi < old_waters.len() {
                                assert(water_entry_ok(old_waters, old_wsrc, d, wi));
                                assert(water_planes@[wi] == old_waters[wi]);
                                assert(wsrc[wi] == old_wsrc[wi]);
                            } else {
                                assert(wsrc[wi] == (li as int, ci as int));
                            }
                        }
                        assert forall|l: int, c: int|
                            valid_index(d, l, c) && pair_before(li as int, ci + 1 as int, (l, c))
                                && is_water_component(#[trigger] comp_at(d, l, c))
                            implies wsrc.contains((l, c)) by {
                            if l == li as int && c == ci as int {
                                assert(wsrc[old_wsrc.len() as int] == (l, c));
                            } else {
                                assert(pair_before(li as int, ci as int, (l, c)));
                                let i = choose|i: int|
                                    0 <= i < old_wsrc.len() && old_wsrc[i] == (l, c);
                                assert(wsrc[i] == (l, c));
                            }
                        }
                    }
                } else {
                    let transform = transform_of_exec(&comp.generic_properties);
                    let mut meshes: Vec<MeshEntry> = Vec::new();
                    meshes.push(MeshEntry { transform });
                    let entry = RenderEntry { id: comp.id.clone(), meshes };
                    let ghost old_models = models@;
                    let ghost old_msrc = msrc;
                    models.push(entry);
                    proof {
                        msrc = msrc.push((li as int, ci as int));
                        assert forall|mi: int| 0 <= mi < models@.len()
                            implies #[trigger] model_entry_ok(models@, msrc, d, mi) by {
                            if mi < old_models.len() {
                                assert(model_entry_ok(old_models, old_msrc, d, mi));
                                assert(models@[mi] == old_models[mi]);
                                assert(msrc[mi] == old_msrc[mi]);
                            } else {
                                assert(msrc[mi] == (li as int, ci as int));
                                assert(models@[mi].meshes@.len() == 1);
                            }
                        }
                        assert forall|l: int, c: int|
                            valid_index(d, l, c) && pair_before(li as int, ci + 1 as int, (l, c))
                                && !is_water_component(#[trigger] comp_at(d, l, c))
                            implies msrc.contains((l, c)) by {
                            if l == li as int && c == ci as int {
                                assert(msrc[old_msrc.len() as int] == (l, c));
                            } else {
                                assert(pair_before(li as int, ci as int, (l, c)));
                                let i = choose|i: int|
                                    0 <= i < old_msrc.len() && old_msrc[i] == (l, c);
                                assert(msrc[i] == (l, c));
                            }
                        }
                    }
                }
                ci = ci + 1;
            }
            proof {
                assert forall|l: int, c: int|
                    valid_index(d, l, c) && pair_before(li + 1 as int, 0, (l, c))
                        && !is_water_component(#[trigger] comp_at(d, l, c))
                    implies msrc.contains((l, c)) by {
                    assert(pair_before(li as int, level.components@.len() as int, (l, c)));
                }
                assert forall|l: int, c: int|
                    valid_index(d, l, c) && pair_before(li + 1 as int, 0, (l, c))
                        && is_water_component(#[trigger] comp_at(d, l, c))
                    implies wsrc.contains((l, c)) by {
                    assert(pair_before(li as int, level.components@.len() as int, (l, c)));
                }
            }
            li = li + 1;
        }
        RendererMirror {
            models,
            water_planes,
            camera: Camera {
                position: Vector3 { x: 0, y: 0, z: 0 },
                direction: Vector3 { x: 0, y: 0, z: 0 },
                viewport_width: width,
                viewport_height: height,
            },
            model_sources: Ghost(msrc),
            water_sources: Ghost(wsrc),
        }
    }
}

/// In a well-formed pair, a model entry whose id equals the id of a stored
/// component shadows exactly that component's position.
pub proof fn lemma_model_source_of_id(
    m: &RendererMirror,
    d: &SceneDocument,
    mi: int,
    li: int,
    ci: int,
)
    requires
        mirror_matches(m, d),
        d.unique_ids(),
        0 <= mi < m.models@.len(),
        valid_index(d, li, ci),
        m.models@[mi].id@ == comp_at(d, li, ci).id@,
    ensures
        m.model_sources@[mi] == (li, ci),
{
    assert(model_entry_ok(m.models@, m.model_sources@, d, mi));
    let sli = m.model_sources@[mi].0;
    let sci = m.model_sources@[mi].1;
    assert(comp_at(d, sli, sci).id@ == comp_at(d, li, ci).id@);
}

/// The mirror of a document without levels holds no entries at all.
pub proof fn lemma_empty_document_empty_mirror(m: &RendererMirror, d: &SceneDocument)
    requires
        mirror_matches(m, d),
        d.levels@.len() == 0,
    ensures
        m.models@.len() == 0,
        m.water_planes@.len() == 0,
{
    if m.models@.len() > 0 {
        assert(model_entry_ok(m.models@, m.model_sources@, d, 0));
    }
    if m.water_planes@.len() > 0 {
        assert(water_entry_ok(m.water_planes@, m.water_sources@, d, 0));
    }
}

} // verus!
