//! One editor session: the owner of the scene document, its renderer
//! mirror, the GPU context and the frame scheduler. Every mutation — a tool
//! call from the command channel, an input event, a render tick, teardown —
//! goes through a method taking the session exclusively, so a render tick
//! can never observe a half-applied mutation and no two mutations ever
//! interleave field by field.

use vstd::prelude::*;

use crate::commands::{spec_success_ack, success_ack, EditorError, ToolCommand, Warning};
use crate::document::{
    comp_at, id_in_doc, same_document, valid_index, ComponentData, GenericProperties,
    SceneDocument,
};
use crate::transform::{applied_transform, TransformPatch};
use crate::water::{merged_water, WaterConfig, WaterPatch};
use crate::gpu::{surface_config_spec, AcquireOutcome, GpuContext, GpuInitOutcome};
use crate::input::{
    spec_movement_key, spec_pointer_action, with_key, InputRouter, MovementKey, PointerAction,
};
use crate::mirror::{
    lemma_model_source_of_id, mirror_matches, model_entry_ok, transform_of, transform_of_exec,
    water_entry_ok, Camera, RendererMirror,
};
use crate::scalars::{Scalar, Vector3};
use crate::scheduler::{tick_core, tick_presents, SchedulerCore, SchedulerPhase, TickOutcome};

verus! {

/// The component as it stands after a transform patch: the named placement
/// fields overwritten, everything else — id, name, kind, payload, scatter —
/// bit-for-bit the component it was.
pub open spec fn patched_component(c: ComponentData, p: TransformPatch) -> ComponentData {
    ComponentData {
        id: c.id,
        generic_properties: GenericProperties {
            name: c.generic_properties.name,
            position: applied_transform(transform_of(c.generic_properties), p).position,
            rotation: applied_transform(transform_of(c.generic_properties), p).rotation,
            scale: applied_transform(transform_of(c.generic_properties), p).scale,
        },
        kind: c.kind,
        payload: c.payload,
        scatter: c.scatter,
    }
}

/// How a document changes under a transform mutation: the components
/// carrying the targeted id are patched, every other component is left
/// untouched, and the document keeps its shape.
pub open spec fn doc_transform_step(
    a: &SceneDocument,
    b: &SceneDocument,
    id: Seq<char>,
    p: TransformPatch,
) -> bool {
    &&& b.levels@.len() == a.levels@.len()
    &&& forall|li: int|
        0 <= li < a.levels@.len()
            ==> #[trigger] b.levels@[li].components@.len() == a.levels@[li].components@.len()
    &&& forall|li: int, ci: int|
        #![trigger comp_at(a, li, ci)]
        #![trigger comp_at(b, li, ci)]
        valid_index(a, li, ci) && comp_at(a, li, ci).id@ != id
            ==> comp_at(b, li, ci) == comp_at(a, li, ci)
    &&& forall|li: int, ci: int|
        #![trigger comp_at(a, li, ci)]
        #![trigger comp_at(b, li, ci)]
        valid_index(a, li, ci) && comp_at(a, li, ci).id@ == id
            ==> comp_at(b, li, ci) == patched_component(comp_at(a, li, ci), p)
}

/// How the mirror changes under a transform mutation: every mesh of every
/// entry carrying the targeted id has the patch applied to its transform;
/// every other entry, the water entries and the camera are left untouched.
pub open spec fn mirror_transform_step(
    a: &RendererMirror,
    b: &RendererMirror,
    id: Seq<char>,
    p: TransformPatch,
) -> bool {
    &&& b.models@.len() == a.models@.len()
    &&& b.model_sources@ == a.model_sources@
    &&& b.water_sources@ == a.water_sources@
    &&& b.water_planes == a.water_planes
    &&& b.camera == a.camera
    &&& forall|mi: int|
        #![trigger b.models@[mi]]
        0 <= mi < a.models@.len() && a.models@[mi].id@ != id ==> b.models@[mi] == a.models@[mi]
    &&& forall|mi: int|
        #![trigger b.models@[mi]]
        0 <= mi < a.models@.len() && a.models@[mi].id@ == id ==> {
            &&& b.models@[mi].id == a.models@[mi].id
            &&& b.models@[mi].meshes@.len() == a.models@[mi].meshes@.len()
            &&& forall|k: int|
                0 <= k < a.models@[mi].meshes@.len()
                    ==> #[trigger] b.models@[mi].meshes@[k].transform == applied_transform(
                        a.models@[mi].meshes@[k].transform,
                        p,
                    )
        }
}

/// Whether two sessions hold the very same scene: document, mirrored
/// entries, camera and source records all unchanged.
pub open spec fn scene_unchanged(a: &EditorSession, b: &EditorSession) -> bool {
    &&& b.document == a.document
    &&& b.mirror.models == a.mirror.models
    &&& b.mirror.water_planes == a.mirror.water_planes
    &&& b.mirror.camera == a.mirror.camera
    &&& b.mirror.model_sources@ == a.mirror.model_sources@
    &&& b.mirror.water_sources@ == a.mirror.water_sources@
}

/// Whether everything around the scene — GPU context, scheduler, input
/// router, session identity — is unchanged between two sessions.
pub open spec fn frame_unchanged(a: &EditorSession, b: &EditorSession) -> bool {
    &&& b.gpu == a.gpu
    &&& b.scheduler == a.scheduler
    &&& b.input == a.input
    &&& b.session_id == a.session_id
    &&& b.preview_mode == a.preview_mode
}

/// The whole effect of one transform mutation on a session: when the
/// targeted id exists, document and mirror take the patch together and
/// nothing else moves; when it does not, the mutation is dropped, a warning
/// is logged and document and mirror stay exactly as they were.
pub open spec fn transform_step(
    a: &EditorSession,
    b: &EditorSession,
    id: Seq<char>,
    p: TransformPatch,
) -> bool {
    &&& frame_unchanged(a, b)
    &&& if id_in_doc(&a.document, id) {
        &&& doc_transform_step(&a.document, &b.document, id, p)
        &&& mirror_transform_step(&a.mirror, &b.mirror, id, p)
        &&& b.warnings@ == a.warnings@
    } else {
        &&& scene_unchanged(a, b)
        &&& b.warnings@.len() == a.warnings@.len() + 1
        &&& b.warnings@.subrange(0, a.warnings@.len() as int) == a.warnings@
        &&& (b.warnings@.last() matches Warning::UnknownComponentId { id: wid } && wid@ == id)
    }
}

/// The component as it stands after a water configuration mutation: the
/// merged configuration persisted as its payload, everything else
/// bit-for-bit the component it was.
pub open spec fn water_component(c: ComponentData, cfg: WaterConfig) -> ComponentData {
    ComponentData { payload: Some(crate::document::ComponentPayload::WaterPlane(cfg)), ..c }
}

/// How a document changes under a water configuration mutation: the water
/// component carrying the targeted id persists the merged configuration,
/// every other component is left untouched, and the document keeps its
/// shape.
pub open spec fn doc_water_step(
    a: &SceneDocument,
    b: &SceneDocument,
    id: Seq<char>,
    cfg: WaterConfig,
) -> bool {
    &&& b.levels@.len() == a.levels@.len()
    &&& forall|li: int|
        0 <= li < a.levels@.len()
            ==> #[trigger] b.levels@[li].components@.len() == a.levels@[li].components@.len()
    &&& forall|li: int, ci: int|
        #![trigger comp_at(a, li, ci)]
        #![trigger comp_at(b, li, ci)]
        valid_index(a, li, ci) && comp_at(a, li, ci).id@ != id
            ==> comp_at(b, li, ci) == comp_at(a, li, ci)
    &&& forall|li: int, ci: int|
        #![trigger comp_at(a, li, ci)]
        #![trigger comp_at(b, li, ci)]
        valid_index(a, li, ci) && comp_at(a, li, ci).id@ == id
            ==> comp_at(b, li, ci) == water_component(comp_at(a, li, ci), cfg)
}

/// How the mirror changes under a water configuration mutation: the active
/// water entry takes the merged configuration and schedules a whole-struct
/// upload for the next render tick; every other entry and the camera are
/// left untouched.
pub open spec fn mirror_water_step(
    a: &RendererMirror,
    b: &RendererMirror,
    cfg: WaterConfig,
) -> bool {
    &&& b.models == a.models
    &&& b.camera == a.camera
    &&& b.model_sources@ == a.model_sources@
    &&& b.water_sources@ == a.water_sources@
    &&& b.water_planes@.len() == a.water_planes@.len()
    &&& a.water_planes@.len() > 0 ==> b.water_planes@[0] == (crate::mirror::WaterEntry {
        id: a.water_planes@[0].id,
        config: cfg,
        uploaded: a.water_planes@[0].uploaded,
        pending_upload: true,
    })
    &&& forall|wi: int|
        #![trigger b.water_planes@[wi]]
        1 <= wi < a.water_planes@.len() ==> b.water_planes@[wi] == a.water_planes@[wi]
}

/// The whole effect of one water configuration mutation on a session: with
/// an active water plane, the fields the patch names are merged into the
/// persisted and mirrored configuration together, an upload is scheduled,
/// and nothing else moves; with no water plane the command is a successful
/// no-op and the session is exactly what it was.
pub open spec fn water_step(a: &EditorSession, b: &EditorSession, p: WaterPatch) -> bool {
    &&& frame_unchanged(a, b)
    &&& b.warnings@ == a.warnings@
    &&& if a.mirror.water_planes@.len() == 0 {
        scene_unchanged(a, b)
    } else {
        &&& doc_water_step(
            &a.document,
            &b.document,
            a.mirror.water_planes@[0].id@,
            merged_water(a.mirror.water_planes@[0].config, p),
        )
        &&& mirror_water_step(
            &a.mirror,
            &b.mirror,
            merged_water(a.mirror.water_planes@[0].config, p),
        )
    }
}

/// Law: a transform mutation changes no id anywhere — the set of component
/// ids after the mutation is the set before it, position for position —
/// and it keeps the document well formed, with every kind tag and payload
/// untouched.
pub proof fn law_transform_preserves_ids(
    a: &SceneDocument,
    b: &SceneDocument,
    id: Seq<char>,
    p: TransformPatch,
)
    requires
        a.wf(),
        doc_transform_step(a, b, id, p),
    ensures
        b.wf(),
        b.levels@.len() == a.levels@.len(),
        forall|li: int, ci: int|
            #![trigger comp_at(b, li, ci)]
            valid_index(a, li, ci)
                ==> valid_index(b, li, ci) && comp_at(b, li, ci).id@ == comp_at(a, li, ci).id@
                    && comp_at(b, li, ci).kind == comp_at(a, li, ci).kind
                    && comp_at(b, li, ci).payload == comp_at(a, li, ci).payload,
        forall|li: int, ci: int|
            #![trigger valid_index(b, li, ci)]
            valid_index(b, li, ci) ==> valid_index(a, li, ci),
        forall|x: Seq<char>| id_in_doc(b, x) <==> id_in_doc(a, x),
{
    assert forall|li: int, ci: int| valid_index(a, li, ci)
        implies valid_index(b, li, ci) && #[trigger] comp_at(b, li, ci).id@ == comp_at(
        a,
        li,
        ci,
    ).id@ && comp_at(b, li, ci).kind == comp_at(a, li, ci).kind && comp_at(b, li, ci).payload
        == comp_at(a, li, ci).payload by {
        if comp_at(a, li, ci).id@ == id {
            assert(comp_at(b, li, ci) == patched_component(comp_at(a, li, ci), p));
        } else {
            assert(comp_at(b, li, ci) == comp_at(a, li, ci));
        }
    }
    assert forall|x: Seq<char>| id_in_doc(b, x) <==> id_in_doc(a, x) by {
        if id_in_doc(a, x) {
            let (li, ci) = choose|li: int, ci: int|
                valid_index(a, li, ci) && #[trigger] comp_at(a, li, ci).id@ == x;
            assert(comp_at(b, li, ci).id@ == x);
        }
        if id_in_doc(b, x) {
            let (li, ci) = choose|li: int, ci: int|
                valid_index(b, li, ci) && #[trigger] comp_at(b, li, ci).id@ == x;
            assert(comp_at(a, li, ci).id@ == x);
        }
    }
    assert forall|li: int, ci: int|
        valid_index(b, li, ci) implies #[trigger] comp_at(b, li, ci).payload_matches_kind() by {
        assert(comp_at(a, li, ci).payload_matches_kind());
    }
}

/// One editor session. All fields are reached exclusively through `&mut
/// self` methods: that single boundary is what makes mutations atomic with
/// respect to render ticks.
pub struct EditorSession {
    pub document: SceneDocument,
    pub mirror: RendererMirror,
    pub gpu: GpuContext,
    pub scheduler: SchedulerCore,
    pub input: InputRouter,
    pub warnings: Vec<Warning>,
    pub session_id: String,
    pub preview_mode: bool,
}

impl EditorSession {
    /// Session invariant: the document is well formed, the mirror is a
    /// faithful shadow of it, the GPU context is well formed, and a ready
    /// scheduler always has a surface to present to.
    pub open spec fn wf(&self) -> bool {
        &&& self.document.wf()
        &&& mirror_matches(&self.mirror, &self.document)
        &&& self.gpu.wf()
        &&& (self.scheduler.phase is Ready ==> self.gpu.surface_attached)
    }

    /// Builds a session from a loaded document: acquires the GPU context,
    /// constructs the mirror from the document and starts the scheduler.
    /// Fails fatally when no compatible device is available; that failure
    /// is not retried and no session exists afterwards.
    pub fn initialize(
        document: SceneDocument,
        width: u32,
        height: u32,
        session_id: String,
        preview_mode: bool,
        gpu_outcome: GpuInitOutcome,
    ) -> (r: Result<EditorSession, EditorError>)
        requires
            document.wf(),
        ensures
            match r {
                Result::Ok(s) => {
                    &&& gpu_outcome is DeviceAcquired
                    &&& s.wf()
                    &&& s.document == document
                    &&& s.scheduler == (SchedulerCore {
                        phase: SchedulerPhase::Ready,
                        last_timestamp: 0u64,
                    })
                    &&& s.gpu.config == Some(surface_config_spec(width, height))
                    &&& s.gpu.device_live && s.gpu.surface_attached
                    &&& s.mirror.camera.viewport_width == width
                    &&& s.mirror.camera.viewport_height == height
                    &&& s.session_id == session_id
                    &&& s.preview_mode == preview_mode
                    &&& s.warnings@.len() == 0
                },
                Result::Err(e) => e == EditorError::GpuInitFailure
                    && gpu_outcome is NoCompatibleAdapter,
            },
    {
        match GpuContext::initialize(gpu_outcome, width, height) {
            Option::None => Result::Err(EditorError::GpuInitFailure),
            Option::Some(gpu) => {
                let mirror = RendererMirror::from_document(&document, width, height);
                Result::Ok(
                    EditorSession {
                        document,
                        mirror,
                        gpu,
                        scheduler: SchedulerCore::ready(),
                        input: InputRouter::released(),
                        warnings: Vec::new(),
                        session_id,
                        preview_mode,
                    },
                )
            },
        }
    }

    /// A copy of the authoritative document, for external persistence.
    pub fn current_document_snapshot(&self) -> (d: SceneDocument)
        ensures
            same_document(&d, &self.document),
    {
        self.document.clone()
    }

    /// Re-applies the surface configuration and the camera viewport at a
    /// new pixel size. The scene itself is untouched.
    pub fn resize(&mut self, width: u32, height: u32)
        requires
            old(self).wf(),
            old(self).scheduler.phase is Ready,
        ensures
            final(self).wf(),
            final(self).gpu.config == Some(surface_config_spec(width, height)),
            final(self).gpu.surface_attached == old(self).gpu.surface_attached,
            final(self).gpu.device_live == old(self).gpu.device_live,
            final(self).mirror.camera == (Camera {
                viewport_width: width,
                viewport_height: height,
                ..old(self).mirror.camera
            }),
            final(self).mirror.models == old(self).mirror.models,
            final(self).mirror.water_planes == old(self).mirror.water_planes,
            final(self).mirror.model_sources == old(self).mirror.model_sources,
            final(self).mirror.water_sources == old(self).mirror.water_sources,
            final(self).document == old(self).document,
            final(self).scheduler == old(self).scheduler,
            final(self).input == old(self).input,
            final(self).warnings@ == old(self).warnings@,
            final(self).session_id == old(self).session_id,
            final(self).preview_mode == old(self).preview_mode,
    {
        self.gpu.reconfigure(width, height);
        self.mirror.camera.viewport_width = width;
        self.mirror.camera.viewport_height = height;
    }

    /// Sets the camera placement; the host computes displacements from the
    /// intents the input router issues and applies them here, through the
    /// same exclusive boundary as every other mutation.
    pub fn set_camera(&mut self, position: Vector3, direction: Vector3)
        requires
            old(self).wf(),
        ensures
            final(self).wf(),
            final(self).mirror.camera == (Camera {
                position,
                direction,
                ..old(self).mirror.camera
            }),
            final(self).mirror.models == old(self).mirror.models,
            final(self).mirror.water_planes == old(self).mirror.water_planes,
            final(self).mirror.model_sources == old(self).mirror.model_sources,
            final(self).mirror.water_sources == old(self).mirror.water_sources,
            final(self).document == old(self).document,
            final(self).gpu == old(self).gpu,
            final(self).scheduler == old(self).scheduler,
            final(self).input == old(self).input,
            final(self).warnings@ == old(self).warnings@,
            final(self).session_id == old(self).session_id,
            final(self).preview_mode == old(self).preview_mode,
    {
        self.mirror.camera.position = position;
        self.mirror.camera.direction = direction;
    }

    /// Records one key transition and returns the camera displacement
    /// intent it issues, if any. A key held down issues its intent exactly
    /// once.
    pub fn key_event(&mut self, code: &str, is_down: bool) -> (intent: Option<MovementKey>)
        requires
            old(self).wf(),
        ensures
            final(self).wf(),
            match spec_movement_key(code@) {
                Option::Some(k) => final(self).input == with_key(old(self).input, k, is_down)
                    && intent == (if is_down && !old(self).input.spec_pressed(k) {
                    Option::Some(k)
                } else {
                    Option::<MovementKey>::None
                }),
                Option::None => final(self).input == old(self).input && intent is None,
            },
            final(self).document == old(self).document,
            final(self).mirror == old(self).mirror,
            final(self).gpu == old(self).gpu,
            final(self).scheduler == old(self).scheduler,
            final(self).warnings@ == old(self).warnings@,
            final(self).session_id == old(self).session_id,
            final(self).preview_mode == old(self).preview_mode,
    {
        self.input.key_event(code, is_down)
    }

    /// Routes one pointer movement to the camera action it asks for:
    /// dragging orbits, dragging with the modifier key pans, anything else
    /// does nothing. The session itself is untouched; the host applies the
    /// action through [`EditorSession::set_camera`].
    pub fn pointer_event(
        &self,
        x: Scalar,
        y: Scalar,
        dx: Scalar,
        dy: Scalar,
        primary_down: bool,
        modifier_down: bool,
    ) -> (a: PointerAction)
        ensures
            a == spec_pointer_action(x, y, dx, dy, primary_down, modifier_down),
    {
        crate::input::pointer_action(x, y, dx, dy, primary_down, modifier_down)
    }

    /// One render tick. A ready scheduler with an acquired frame uploads
    /// any pending water configuration, draws every mirrored entry with the
    /// current camera, presents and advances animation time; a transient
    /// acquisition failure skips the tick, logs it and leaves the scheduler
    /// ready for the next tick; a fatal failure stops the session. The
    /// document and every mirrored transform are read, never written: a
    /// tick observes mutations wholly or not at all.
    pub fn render_frame(&mut self, timestamp: u64, acquire: AcquireOutcome) -> (tick: TickOutcome)
        requires
            old(self).wf(),
        ensures
            final(self).wf(),
            final(self).scheduler == tick_core(old(self).scheduler, acquire, timestamp),
            (tick is Presented) == tick_presents(old(self).scheduler, acquire),
            tick matches TickOutcome::Presented { drawn }
                ==> drawn == old(self).mirror.models@.len(),
            final(self).document == old(self).document,
            final(self).mirror.models == old(self).mirror.models,
            final(self).mirror.camera == old(self).mirror.camera,
            final(self).mirror.model_sources == old(self).mirror.model_sources,
            final(self).mirror.water_sources == old(self).mirror.water_sources,
            if tick_presents(old(self).scheduler, acquire) {
                &&& final(self).mirror.water_planes@.len() == old(self).mirror.water_planes@.len()
                &&& forall|wi: int|
                    0 <= wi < old(self).mirror.water_planes@.len()
                        ==> final(self).mirror.water_planes@[wi] == (crate::mirror::WaterEntry {
                        id: old(self).mirror.water_planes@[wi].id,
                        config: old(self).mirror.water_planes@[wi].config,
                        uploaded: old(self).mirror.water_planes@[wi].config,
                        pending_upload: false,
                    })
            } else {
                final(self).mirror.water_planes == old(self).mirror.water_planes
            },
            (old(self).scheduler.phase is Ready && acquire is Fatal) ==> !final(self).gpu.device_live
                && !final(self).gpu.surface_attached,
            !(old(self).scheduler.phase is Ready && acquire is Fatal) ==> final(self).gpu == old(
                self,
            ).gpu,
            (old(self).scheduler.phase is Ready && acquire is Transient) ==> final(self).warnings@
                == old(self).warnings@.push(Warning::SurfaceAcquireTransient),
            !(old(self).scheduler.phase is Ready && acquire is Transient) ==> final(self).warnings@
                == old(self).warnings@,
            final(self).input == old(self).input,
            final(self).session_id == old(self).session_id,
            final(self).preview_mode == old(self).preview_mode,
    {
        let was_ready = matches!(self.scheduler.phase, SchedulerPhase::Ready);
        let presents = self.scheduler.tick(acquire, timestamp);
        if presents {
            let mut wi: usize = 0;
            while wi < self.mirror.water_planes.len()
                invariant
                    wi <= self.mirror.water_planes@.len(),
                    self.mirror.water_planes@.len() == old(self).mirror.water_planes@.len(),
                    self.document == old(self).document,
                    self.mirror.models == old(self).mirror.models,
                    self.mirror.camera == old(self).mirror.camera,
                    self.mirror.model_sources == old(self).mirror.model_sources,
                    self.mirror.water_sources == old(self).mirror.water_sources,
                    self.gpu == old(self).gpu,
                    self.scheduler == tick_core(old(self).scheduler, acquire, timestamp),
                    self.input == old(self).input,
                    self.warnings@ == old(self).warnings@,
                    self.session_id == old(self).session_id,
                    self.preview_mode == old(self).preview_mode,
                    old(self).wf(),
                    tick_presents(old(self).scheduler, acquire),
                    forall|j: int|
                        0 <= j < wi ==> self.mirror.water_planes@[j] == (crate::mirror::WaterEntry {
                            id: old(self).mirror.water_planes@[j].id,
                            config: old(self).mirror.water_planes@[j].config,
                            uploaded: old(self).mirror.water_planes@[j].config,
                            pending_upload: false,
                        }),
                    forall|j: int|
                        wi <= j < self.mirror.water_planes@.len()
                            ==> self.mirror.water_planes@[j]
                                == old(self).mirror.water_planes@[j],
                decreases self.mirror.water_planes@.len() - wi,
            {
                let cfg = self.mirror.water_planes[wi].config;
                self.mirror.water_planes[wi].uploaded = cfg;
                self.mirror.water_planes[wi].pending_upload = false;
                wi = wi + 1;
            }
            proof {
                assert forall|j: int| 0 <= j < self.mirror.water_planes@.len()
                    implies crate::mirror::water_entry_ok(
                        self.mirror.water_planes@,
                        self.mirror.water_sources@,
                        &self.document,
                        j,
                    ) by {
                    assert(crate::mirror::water_entry_ok(
                        old(self).mirror.water_planes@,
                        old(self).mirror.water_sources@,
                        &old(self).document,
                        j,
                    ));
                }
            }
            TickOutcome::Presented { drawn: self.mirror.models.len() }
        } else {
            match acquire {
                AcquireOutcome::Transient => {
                    if was_ready {
                        self.warnings.push(Warning::SurfaceAcquireTransient);
                    }
                },
                AcquireOutcome::Fatal => {
                    if was_ready {
                        self.gpu.mark_device_lost();
                    }
                },
                AcquireOutcome::Frame => {},
            }
            TickOutcome::Skipped
        }
    }

    /// Applies a `transformObject` mutation: each placement field the patch
    /// names overwrites the matching document field and every mesh
    /// transform mirrored for that id, both in this one exclusive step;
    /// fields the patch does not name stay bit-for-bit. A mutation naming
    /// an id no component carries is dropped with a logged warning and no
    /// state change.
    pub fn apply_transform(&mut self, component_id: &str, patch: &TransformPatch)
        requires
            old(self).wf(),
        ensures
            final(self).wf(),
            transform_step(old(self), final(self), component_id@, *patch),
    {
        match self.document.find_component(component_id) {
            Option::None => {
                let ghost pre = self.warnings@;
                self.warnings.push(Warning::UnknownComponentId { id: component_id.to_owned() });
                proof {
                    assert(self.warnings@.subrange(0, pre.len() as int) =~= pre);
                }
            },
            Option::Some((fli, fci)) => {
                proof {
                    assert(comp_at(&self.document, fli as int, fci as int).id@ == component_id@);
                }
                {
                    let level = &mut self.document.levels[fli];
                    let comp = &mut level.components[fci];
                    let t = transform_of_exec(&comp.generic_properties);
                    let nt = t.apply_patch(patch);
                    comp.generic_properties.position = nt.position;
                    comp.generic_properties.rotation = nt.rotation;
                    comp.generic_properties.scale = nt.scale;
                }
                proof {
                    assert(comp_at(&self.document, fli as int, fci as int) == patched_component(
                        comp_at(&old(self).document, fli as int, fci as int),
                        *patch,
                    ));
                    assert forall|li: int, ci: int|
                        valid_index(&old(self).document, li, ci) && #[trigger] comp_at(
                            &old(self).document,
                            li,
                            ci,
                        ).id@ != component_id@ implies comp_at(&self.document, li, ci) == comp_at(
                        &old(self).document,
                        li,
                        ci,
                    ) by {
                        assert(!(li == fli as int && ci == fci as int));
                    }
                    assert forall|li: int, ci: int|
                        valid_index(&old(self).document, li, ci) && #[trigger] comp_at(
                            &old(self).document,
                            li,
                            ci,
                        ).id@ == component_id@ implies comp_at(&self.document, li, ci)
                        == patched_component(comp_at(&old(self).document, li, ci), *patch) by {
                        assert(li == fli as int && ci == fci as int);
                    }
                    assert(doc_transform_step(
                        &old(self).document,
                        &self.document,
                        component_id@,
                        *patch,
                    ));
                }
                let ghost docu = *self;
                let key: String = component_id.to_owned();
                let mut mi: usize = 0;
                while mi < self.mirror.models.len()
                    invariant
                        mi <= self.mirror.models@.len(),
                        key@ == component_id@,
                        self.document == docu.document,
                        self.gpu == docu.gpu,
                        self.scheduler == docu.scheduler,
                        self.input == docu.input,
                        self.warnings@ == docu.warnings@,
                        self.session_id == docu.session_id,
                        self.preview_mode == docu.preview_mode,
                        self.mirror.models@.len() == docu.mirror.models@.len(),
                        self.mirror.model_sources@ == docu.mirror.model_sources@,
                        self.mirror.water_sources@ == docu.mirror.water_sources@,
                        self.mirror.water_planes == docu.mirror.water_planes,
                        self.mirror.camera == docu.mirror.camera,
                        forall|j: int|
                            #![trigger self.mirror.models@[j]]
                            0 <= j < mi && docu.mirror.models@[j].id@ != key@
                                ==> self.mirror.models@[j] == docu.mirror.models@[j],
                        forall|j: int|
                            #![trigger self.mirror.models@[j]]
                            0 <= j < mi && docu.mirror.models@[j].id@ == key@ ==> {
                                &&& self.mirror.models@[j].id == docu.mirror.models@[j].id
                                &&& self.mirror.models@[j].meshes@.len()
                                    == docu.mirror.models@[j].meshes@.len()
                                &&& forall|k: int|
                                    0 <= k < docu.mirror.models@[j].meshes@.len()
                                        ==> #[trigger] self.mirror.models@[j].meshes@[k].transform
                                            == applied_transform(
                                            docu.mirror.models@[j].meshes@[k].transform,
                                            *patch,
                                        )
                            },
                        forall|j: int|
                            #![trigger self.mirror.models@[j]]
                            mi <= j < self.mirror.models@.len()
                                ==> self.mirror.models@[j] == docu.mirror.models@[j],
                    decreases self.mirror.models@.len() - mi,
                {
                    if self.mirror.models[mi].id == key {
                        let ghost mid = *self;
                        let mut k: usize = 0;
                        while k < self.mirror.models[mi].meshes.len()
                            invariant
                                mi < self.mirror.models@.len(),
                                k <= self.mirror.models@[mi as int].meshes@.len(),
                                self.document == mid.document,
                                self.gpu == mid.gpu,
                                self.scheduler == mid.scheduler,
                                self.input == mid.input,
                                self.warnings@ == mid.warnings@,
                                self.session_id == mid.session_id,
                                self.preview_mode == mid.preview_mode,
                                self.mirror.models@.len() == mid.mirror.models@.len(),
                                self.mirror.model_sources@ == mid.mirror.model_sources@,
                                self.mirror.water_sources@ == mid.mirror.water_sources@,
                                self.mirror.water_planes == mid.mirror.water_planes,
                                self.mirror.camera == mid.mirror.camera,
                                forall|j: int|
                                    #![trigger self.mirror.models@[j]]
                                    0 <= j < self.mirror.models@.len() && j != mi
                                        ==> self.mirror.models@[j] == mid.mirror.models@[j],
                                self.mirror.models@[mi as int].id
                                    == mid.mirror.models@[mi as int].id,
                                self.mirror.models@[mi as int].meshes@.len()
                                    == mid.mirror.models@[mi as int].meshes@.len(),
                                forall|kk: int|
                                    0 <= kk < k
                                        ==> #[trigger] self.mirror.models@[mi as int].meshes@[kk].transform
                                            == applied_transform(
                                            mid.mirror.models@[mi as int].meshes@[kk].transform,
                                            *patch,
                                        ),
                                forall|kk: int|
                                    k <= kk < self.mirror.models@[mi as int].meshes@.len()
                                        ==> #[trigger] self.mirror.models@[mi as int].meshes@[kk]
                                            == mid.mirror.models@[mi as int].meshes@[kk],
                            decreases self.mirror.models@[mi as int].meshes@.len() - k,
                        {
                            let mt = self.mirror.models[mi].meshes[k].transform;
                            let nt = mt.apply_patch(patch);
                            self.mirror.models[mi].meshes[k].transform = nt;
                            k = k + 1;
                        }
                    }
                    mi = mi + 1;
                }
                proof {
                    let a = old(self);
                    let dnew = &self.document;
                    law_transform_preserves_ids(&a.document, dnew, component_id@, *patch);
                    assert(mirror_transform_step(
                        &a.mirror,
                        &self.mirror,
                        component_id@,
                        *patch,
                    ));
                    assert forall|mi2: int| 0 <= mi2 < self.mirror.models@.len()
                        implies #[trigger] model_entry_ok(
                        self.mirror.models@,
                        self.mirror.model_sources@,
                        dnew,
                        mi2,
                    ) by {
                        assert(model_entry_ok(
                            a.mirror.models@,
                            a.mirror.model_sources@,
                            &a.document,
                            mi2,
                        ));
                        let sli = a.mirror.model_sources@[mi2].0;
                        let sci = a.mirror.model_sources@[mi2].1;
                        if a.mirror.models@[mi2].id@ == component_id@ {
                            assert(comp_at(&a.document, sli, sci).id@ == component_id@);
                            assert(comp_at(dnew, sli, sci) == patched_component(
                                comp_at(&a.document, sli, sci),
                                *patch,
                            ));
                            assert(transform_of(comp_at(dnew, sli, sci).generic_properties)
                                == applied_transform(
                                transform_of(comp_at(&a.document, sli, sci).generic_properties),
                                *patch,
                            ));
                        } else {
                            assert(comp_at(&a.document, sli, sci).id@ != component_id@);
                            assert(comp_at(dnew, sli, sci) == comp_at(&a.document, sli, sci));
                            assert(self.mirror.models@[mi2] == a.mirror.models@[mi2]);
                        }
                    }
                    assert forall|wi: int| 0 <= wi < self.mirror.water_planes@.len()
                        implies #[trigger] water_entry_ok(
                        self.mirror.water_planes@,
                        self.mirror.water_sources@,
                        dnew,
                        wi,
                    ) by {
                        assert(water_entry_ok(
                            a.mirror.water_planes@,
                            a.mirror.water_sources@,
                            &a.document,
                            wi,
                        ));
                        let sli = a.mirror.water_sources@[wi].0;
                        let sci = a.mirror.water_sources@[wi].1;
                        if comp_at(&a.document, sli, sci).id@ == component_id@ {
                            assert(comp_at(dnew, sli, sci) == patched_component(
                                comp_at(&a.document, sli, sci),
                                *patch,
                            ));
                        } else {
                            assert(comp_at(dnew, sli, sci) == comp_at(&a.document, sli, sci));
                        }
                    }
                    assert forall|l: int, c: int|
                        valid_index(dnew, l, c) && !crate::document::is_water_component(
                            #[trigger] comp_at(dnew, l, c),
                        ) implies self.mirror.model_sources@.contains((l, c)) by {
                        assert(valid_index(&a.document, l, c));
                        assert(comp_at(dnew, l, c).kind == comp_at(&a.document, l, c).kind);
                        assert(!crate::document::is_water_component(comp_at(&a.document, l, c)));
                    }
                    assert forall|l: int, c: int|
                        valid_index(dnew, l, c) && crate::document::is_water_component(
                            #[trigger] comp_at(dnew, l, c),
                        ) implies self.mirror.water_sources@.contains((l, c)) by {
                        assert(valid_index(&a.document, l, c));
                        assert(comp_at(dnew, l, c).kind == comp_at(&a.document, l, c).kind);
                        assert(crate::document::is_water_component(comp_at(&a.document, l, c)));
                    }
                    assert(id_in_doc(&a.document, component_id@));
                }
            },
        }
    }

    /// Applies a `configureWater` mutation: the fields the patch names are
    /// merged into a working copy of the active water plane's current
    /// configuration; the merged configuration is persisted into the
    /// document's water payload and mirrored, with a whole-struct GPU
    /// upload scheduled before the next render tick. Fields the patch does
    /// not name stay bit-for-bit. With no active water plane the command is
    /// a no-op, acknowledged as success.
    pub fn apply_water_config(&mut self, patch: &WaterPatch)
        requires
            old(self).wf(),
        ensures
            final(self).wf(),
            water_step(old(self), final(self), *patch),
    {
        if self.mirror.water_planes.len() == 0 {
            return ;
        }
        proof {
            assert(water_entry_ok(
                self.mirror.water_planes@,
                self.mirror.water_sources@,
                &self.document,
                0,
            ));
        }
        let current = self.mirror.water_planes[0].config;
        let merged = current.merge(patch);
        let entry_id = self.mirror.water_planes[0].id.clone();
        let ghost wli = self.mirror.water_sources@[0].0;
        let ghost wci = self.mirror.water_sources@[0].1;
        proof {
            assert(comp_at(&self.document, wli, wci).id@ == entry_id@);
            assert(id_in_doc(&self.document, entry_id@));
        }
        match self.document.find_component(entry_id.as_str()) {
            Option::None => {
                proof {
                    assert(false);
                }
            },
            Option::Some((fli, fci)) => {
                proof {
                    assert(comp_at(&self.document, fli as int, fci as int).id@ == comp_at(
                        &self.document,
                        wli,
                        wci,
                    ).id@);
                    assert(fli as int == wli && fci as int == wci);
                    assert(crate::document::is_water_component(
                        comp_at(&self.document, fli as int, fci as int),
                    ));
                }
                {
                    let level = &mut self.document.levels[fli];
                    let comp = &mut level.components[fci];
                    comp.payload = Option::Some(
                        crate::document::ComponentPayload::WaterPlane(merged),
                    );
                }
                proof {
                    assert(comp_at(&self.document, fli as int, fci as int) == water_component(
                        comp_at(&old(self).document, fli as int, fci as int),
                        merged,
                    ));
                    assert forall|li: int, ci: int|
                        valid_index(&old(self).document, li, ci) && #[trigger] comp_at(
                            &old(self).document,
                            li,
                            ci,
                        ).id@ != entry_id@ implies comp_at(&self.document, li, ci) == comp_at(
                        &old(self).document,
                        li,
                        ci,
                    ) by {
                        assert(!(li == fli as int && ci == fci as int));
                    }
                    assert forall|li: int, ci: int|
                        valid_index(&old(self).document, li, ci) && #[trigger] comp_at(
                            &old(self).document,
                            li,
                            ci,
                        ).id@ == entry_id@ implies comp_at(&self.document, li, ci)
                        == water_component(comp_at(&old(self).document, li, ci), merged) by {
                        assert(li == fli as int && ci == fci as int);
                    }
                    assert(doc_water_step(
                        &old(self).document,
                        &self.document,
                        entry_id@,
                        merged,
                    ));
                }
                self.mirror.water_planes[0].config = merged;
                self.mirror.water_planes[0].pending_upload = true;
                proof {
                    let a = old(self);
                    let dnew = &self.document;
                    // The document stays well formed: ids, kinds and shape
                    // are untouched; the one payload written matches its
                    // component's water kind tag.
                    assert forall|li: int, ci: int| valid_index(&a.document, li, ci)
                        implies valid_index(dnew, li, ci) && #[trigger] comp_at(
                        dnew,
                        li,
                        ci,
                    ).id@ == comp_at(&a.document, li, ci).id@ && comp_at(dnew, li, ci).kind
                        == comp_at(&a.document, li, ci).kind && comp_at(
                        dnew,
                        li,
                        ci,
                    ).generic_properties == comp_at(&a.document, li, ci).generic_properties by {
                        if comp_at(&a.document, li, ci).id@ == entry_id@ {
                            assert(comp_at(dnew, li, ci) == water_component(
                                comp_at(&a.document, li, ci),
                                merged,
                            ));
                        } else {
                            assert(comp_at(dnew, li, ci) == comp_at(&a.document, li, ci));
                        }
                    }
                    assert forall|li: int, ci: int|
                        valid_index(dnew, li, ci) implies #[trigger] comp_at(
                        dnew,
                        li,
                        ci,
                    ).payload_matches_kind() by {
                        assert(comp_at(&a.document, li, ci).payload_matches_kind());
                        if comp_at(&a.document, li, ci).id@ == entry_id@ {
                            assert(li == fli as int && ci == fci as int);
                            assert(comp_at(dnew, li, ci).kind == Some(
                                crate::document::ComponentKind::WaterPlane,
                            ));
                        } else {
                            assert(comp_at(dnew, li, ci) == comp_at(&a.document, li, ci));
                        }
                    }
                    assert(dnew.wf());
                    assert forall|mi2: int| 0 <= mi2 < self.mirror.models@.len()
                        implies #[trigger] model_entry_ok(
                        self.mirror.models@,
                        self.mirror.model_sources@,
                        dnew,
                        mi2,
                    ) by {
                        assert(model_entry_ok(
                            a.mirror.models@,
                            a.mirror.model_sources@,
                            &a.document,
                            mi2,
                        ));
                        let sli = a.mirror.model_sources@[mi2].0;
                        let sci = a.mirror.model_sources@[mi2].1;
                        if comp_at(&a.document, sli, sci).id@ == entry_id@ {
                            assert(sli == fli as int && sci == fci as int);
                            assert(false);
                        } else {
                            assert(comp_at(dnew, sli, sci) == comp_at(&a.document, sli, sci));
                        }
                    }
                    assert forall|wi: int| 0 <= wi < self.mirror.water_planes@.len()
                        implies #[trigger] water_entry_ok(
                        self.mirror.water_planes@,
                        self.mirror.water_sources@,
                        dnew,
                        wi,
                    ) by {
                        assert(water_entry_ok(
                            a.mirror.water_planes@,
                            a.mirror.water_sources@,
                            &a.document,
                            wi,
                        ));
                        let sli = a.mirror.water_sources@[wi].0;
                        let sci = a.mirror.water_sources@[wi].1;
                        if wi == 0 {
                            assert(comp_at(dnew, wli, wci) == water_component(
                                comp_at(&a.document, wli, wci),
                                merged,
                            ));
                        } else {
                            assert((sli, sci) != (wli, wci));
                            assert(comp_at(&a.document, sli, sci).id@ != comp_at(
                                &a.document,
                                wli,
                                wci,
                            ).id@);
                            assert(comp_at(dnew, sli, sci) == comp_at(&a.document, sli, sci));
                        }
                    }
                    assert forall|l: int, c: int|
                        valid_index(dnew, l, c) && !crate::document::is_water_component(
                            #[trigger] comp_at(dnew, l, c),
                        ) implies self.mirror.model_sources@.contains((l, c)) by {
                        assert(valid_index(&a.document, l, c));
                        assert(comp_at(dnew, l, c).kind == comp_at(&a.document, l, c).kind);
                        assert(!crate::document::is_water_component(comp_at(&a.document, l, c)));
                    }
                    assert forall|l: int, c: int|
                        valid_index(dnew, l, c) && crate::document::is_water_component(
                            #[trigger] comp_at(dnew, l, c),
                        ) implies self.mirror.water_sources@.contains((l, c)) by {
                        assert(valid_index(&a.document, l, c));
                        assert(comp_at(dnew, l, c).kind == comp_at(&a.document, l, c).kind);
                        assert(crate::document::is_water_component(comp_at(&a.document, l, c)));
                    }
                }
            },
        }
    }

    /// Executes one decoded tool command against the session. Every routed
    /// command — matched or not — is answered with the fixed success
    /// envelope; an unknown command name is an explicit no-op; lookup
    /// failures are logged, never returned as a command failure.
    pub fn execute_tool_call(&mut self, command: &ToolCommand) -> (ack: String)
        requires
            old(self).wf(),
            old(self).scheduler.phase is Ready,
        ensures
            final(self).wf(),
            ack@ == spec_success_ack(),
            (*command matches ToolCommand::TransformObject { component_id, patch }
                ==> transform_step(old(self), final(self), component_id@, patch)),
            (*command matches ToolCommand::ConfigureWater(patch)
                ==> water_step(old(self), final(self), patch)),
            (*command is Unhandled ==> *final(self) == *old(self)),
    {
        match command {
            ToolCommand::TransformObject { component_id, patch } => {
                self.apply_transform(component_id.as_str(), patch);
            },
            ToolCommand::ConfigureWater(patch) => {
                self.apply_water_config(patch);
            },
            ToolCommand::Unhandled => {},
        }
        success_ack()
    }

    /// Ordered teardown: the surface is released strictly before the
    /// device, and the scheduler stops so that no tick or command runs
    /// afterwards.
    pub fn teardown(&mut self)
        requires
            old(self).wf(),
        ensures
            final(self).wf(),
            final(self).scheduler.phase is Stopped,
            !final(self).gpu.surface_attached,
            !final(self).gpu.device_live,
            final(self).document == old(self).document,
            final(self).mirror == old(self).mirror,
            final(self).warnings@ == old(self).warnings@,
            final(self).session_id == old(self).session_id,
            final(self).preview_mode == old(self).preview_mode,
    {
        self.gpu.detach_surface();
        self.gpu.release_device();
        self.scheduler.phase = SchedulerPhase::Stopped;
    }
}

/// Law: round-trip consistency. In every well-formed session — so after
/// every completed mutation — the mirror's mesh transforms for an id equal
/// the document's placement properties for that id exactly.
pub proof fn law_mirror_reflects_document(
    s: &EditorSession,
    mi: int,
    li: int,
    ci: int,
    k: int,
)
    requires
        s.wf(),
        0 <= mi < s.mirror.models@.len(),
        valid_index(&s.document, li, ci),
        s.mirror.models@[mi].id@ == comp_at(&s.document, li, ci).id@,
        0 <= k < s.mirror.models@[mi].meshes@.len(),
    ensures
        s.mirror.models@[mi].meshes@[k].transform == transform_of(
            comp_at(&s.document, li, ci).generic_properties,
        ),
{
    lemma_model_source_of_id(&s.mirror, &s.document, mi, li, ci);
    assert(model_entry_ok(s.mirror.models@, s.mirror.model_sources@, &s.document, mi));
}

/// Law: applying the same transform mutation twice leaves the scene — the
/// document and every mirrored entry — exactly as applying it once did.
pub proof fn law_transform_idempotent_session(
    a: &EditorSession,
    b: &EditorSession,
    c: &EditorSession,
    id: Seq<char>,
    p: TransformPatch,
)
    requires
        a.wf(),
        transform_step(a, b, id, p),
        transform_step(b, c, id, p),
    ensures
        same_document(&c.document, &b.document),
        c.mirror.models@.len() == b.mirror.models@.len(),
        forall|mi: int|
            0 <= mi < b.mirror.models@.len()
                ==> #[trigger] c.mirror.models@[mi].id == b.mirror.models@[mi].id
                    && c.mirror.models@[mi].meshes@ == b.mirror.models@[mi].meshes@,
        c.mirror.water_planes == b.mirror.water_planes,
{
    if id_in_doc(&a.document, id) {
        law_transform_preserves_ids(&a.document, &b.document, id, p);
        assert(id_in_doc(&b.document, id));
        assert forall|li: int| 0 <= li < b.document.levels@.len()
            implies #[trigger] c.document.levels@[li].components@
            == b.document.levels@[li].components@ by {
            assert forall|ci: int| 0 <= ci < b.document.levels@[li].components@.len()
                implies #[trigger] comp_at(&c.document, li, ci) == comp_at(
                &b.document,
                li,
                ci,
            ) by {
                if comp_at(&a.document, li, ci).id@ == id {
                    assert(comp_at(&b.document, li, ci) == patched_component(
                        comp_at(&a.document, li, ci),
                        p,
                    ));
                    assert(comp_at(&b.document, li, ci).id@ == id);
                    assert(comp_at(&c.document, li, ci) == patched_component(
                        comp_at(&b.document, li, ci),
                        p,
                    ));
                    assert(transform_of(comp_at(&b.document, li, ci).generic_properties)
                        == applied_transform(
                        transform_of(comp_at(&a.document, li, ci).generic_properties),
                        p,
                    ));
                } else {
                    assert(comp_at(&b.document, li, ci) == comp_at(&a.document, li, ci));
                    assert(comp_at(&c.document, li, ci) == comp_at(&b.document, li, ci));
                }
            }
            assert(c.document.levels@[li].components@.len()
                == b.document.levels@[li].components@.len());
            assert forall|ci: int| 0 <= ci < b.document.levels@[li].components@.len()
                implies c.document.levels@[li].components@[ci]
                == b.document.levels@[li].components@[ci] by {
                assert(comp_at(&c.document, li, ci) == comp_at(&b.document, li, ci));
            }
            assert(c.document.levels@[li].components@ =~= b.document.levels@[li].components@);
        }
        assert forall|mi: int| 0 <= mi < b.mirror.models@.len()
            implies #[trigger] c.mirror.models@[mi].id == b.mirror.models@[mi].id
            && c.mirror.models@[mi].meshes@ == b.mirror.models@[mi].meshes@ by {
            if a.mirror.models@[mi].id@ == id {
                assert(b.mirror.models@[mi].id == a.mirror.models@[mi].id);
                assert(b.mirror.models@[mi].id@ == id);
                assert forall|k: int| 0 <= k < b.mirror.models@[mi].meshes@.len()
                    implies #[trigger] c.mirror.models@[mi].meshes@[k]
                    == b.mirror.models@[mi].meshes@[k] by {
                    assert(b.mirror.models@[mi].meshes@[k].transform == applied_transform(
                        a.mirror.models@[mi].meshes@[k].transform,
                        p,
                    ));
                    assert(c.mirror.models@[mi].meshes@[k].transform == applied_transform(
                        b.mirror.models@[mi].meshes@[k].transform,
                        p,
                    ));
                }
                assert(c.mirror.models@[mi].meshes@ =~= b.mirror.models@[mi].meshes@);
            } else {
                assert(b.mirror.models@[mi] == a.mirror.models@[mi]);
                assert(b.mirror.models@[mi].id@ != id);
                assert(c.mirror.models@[mi] == b.mirror.models@[mi]);
            }
        }
    } else {
        assert(scene_unchanged(a, b));
        assert(b.document == a.document);
        assert(!id_in_doc(&b.document, id));
        assert(scene_unchanged(b, c));
    }
}

/// Law: re-applying the same partial water configuration twice yields the
/// same final state as applying it once — document, water entries and model
/// entries alike.
pub proof fn law_water_idempotent_session(
    a: &EditorSession,
    b: &EditorSession,
    c: &EditorSession,
    p: WaterPatch,
)
    requires
        a.wf(),
        water_step(a, b, p),
        water_step(b, c, p),
    ensures
        same_document(&c.document, &b.document),
        c.mirror.water_planes@.len() == b.mirror.water_planes@.len(),
        forall|wi: int|
            0 <= wi < b.mirror.water_planes@.len()
                ==> #[trigger] c.mirror.water_planes@[wi] == b.mirror.water_planes@[wi],
        c.mirror.models == b.mirror.models,
{
    if a.mirror.water_planes@.len() == 0 {
        assert(scene_unchanged(a, b));
        assert(b.mirror.water_planes@.len() == 0);
        assert(scene_unchanged(b, c));
        assert forall|li: int| 0 <= li < b.document.levels@.len()
            implies #[trigger] c.document.levels@[li].components@
            == b.document.levels@[li].components@ by {
        }
    } else {
        let id = a.mirror.water_planes@[0].id@;
        let m1 = merged_water(a.mirror.water_planes@[0].config, p);
        assert(b.mirror.water_planes@[0].id@ == id);
        assert(b.mirror.water_planes@[0].config == m1);
        let m2 = merged_water(m1, p);
        assert(m2 == m1);
        assert forall|li: int| 0 <= li < b.document.levels@.len()
            implies #[trigger] c.document.levels@[li].components@
            == b.document.levels@[li].components@ by {
            assert(b.document.levels@[li].components@.len()
                == a.document.levels@[li].components@.len());
            assert forall|ci: int| 0 <= ci < b.document.levels@[li].components@.len()
                implies #[trigger] comp_at(&c.document, li, ci) == comp_at(
                &b.document,
                li,
                ci,
            ) by {
                if comp_at(&a.document, li, ci).id@ == id {
                    assert(comp_at(&b.document, li, ci) == water_component(
                        comp_at(&a.document, li, ci),
                        m1,
                    ));
                    assert(comp_at(&b.document, li, ci).id@ == id);
                    assert(comp_at(&c.document, li, ci) == water_component(
                        comp_at(&b.document, li, ci),
                        m2,
                    ));
                } else {
                    assert(comp_at(&b.document, li, ci) == comp_at(&a.document, li, ci));
                    assert(comp_at(&c.document, li, ci) == comp_at(&b.document, li, ci));
                }
            }
            assert(c.document.levels@[li].components@.len()
                == b.document.levels@[li].components@.len());
            assert forall|ci: int| 0 <= ci < b.document.levels@[li].components@.len()
                implies c.document.levels@[li].components@[ci]
                == b.document.levels@[li].components@[ci] by {
                assert(comp_at(&c.document, li, ci) == comp_at(&b.document, li, ci));
            }
            assert(c.document.levels@[li].components@ =~= b.document.levels@[li].components@);
        }
        assert forall|wi: int| 0 <= wi < b.mirror.water_planes@.len()
            implies #[trigger] c.mirror.water_planes@[wi] == b.mirror.water_planes@[wi] by {
            if wi == 0 {
                assert(c.mirror.water_planes@[0] == (crate::mirror::WaterEntry {
                    id: b.mirror.water_planes@[0].id,
                    config: m2,
                    uploaded: b.mirror.water_planes@[0].uploaded,
                    pending_upload: true,
                }));
            }
        }
    }
}

/// Law: atomicity of a multi-field mutation as the renderer observes it.
/// After the mutation, every mesh mirrored for the targeted id shows every
/// field the patch names at once, and every field it does not name exactly
/// as before; and since a render tick never writes the document or the
/// mirrored transforms, a frame shows a mutation wholly or not at all —
/// never an old position with a new rotation.
pub proof fn law_mutation_atomic(
    a: &EditorSession,
    b: &EditorSession,
    id: Seq<char>,
    p: TransformPatch,
    mi: int,
    k: int,
)
    requires
        a.wf(),
        transform_step(a, b, id, p),
        id_in_doc(&a.document, id),
        0 <= mi < a.mirror.models@.len(),
        a.mirror.models@[mi].id@ == id,
        0 <= k < a.mirror.models@[mi].meshes@.len(),
    ensures
        p.translation matches Some(v) ==> b.mirror.models@[mi].meshes@[k].transform.position == v,
        p.rotation matches Some(v) ==> b.mirror.models@[mi].meshes@[k].transform.rotation == v,
        p.scale matches Some(v) ==> b.mirror.models@[mi].meshes@[k].transform.scale == v,
        p.translation is None ==> b.mirror.models@[mi].meshes@[k].transform.position
            == a.mirror.models@[mi].meshes@[k].transform.position,
        p.rotation is None ==> b.mirror.models@[mi].meshes@[k].transform.rotation
            == a.mirror.models@[mi].meshes@[k].transform.rotation,
        p.scale is None ==> b.mirror.models@[mi].meshes@[k].transform.scale
            == a.mirror.models@[mi].meshes@[k].transform.scale,
{
    assert(b.mirror.models@[mi].meshes@[k].transform == applied_transform(
        a.mirror.models@[mi].meshes@[k].transform,
        p,
    ));
}

/// Law: a session over a document with no levels draws nothing — its render
/// tick presents a frame with zero mirrored entries, since the mirror of an
/// empty document holds no entries at all.
pub proof fn law_empty_document_presents_nothing(s: &EditorSession)
    requires
        s.wf(),
        s.document.levels@.len() == 0,
    ensures
        s.mirror.models@.len() == 0,
        s.mirror.water_planes@.len() == 0,
{
    crate::mirror::lemma_empty_document_empty_mirror(&s.mirror, &s.document);
}

/// Law: a transform mutation naming an id that no document component
/// carries changes neither the document nor the mirror — the id set and
/// every entry before the call equal those after it — and logs exactly one
/// warning.
pub proof fn law_unknown_id_is_noop(
    a: &EditorSession,
    b: &EditorSession,
    id: Seq<char>,
    p: TransformPatch,
)
    requires
        a.wf(),
        transform_step(a, b, id, p),
        !id_in_doc(&a.document, id),
    ensures
        scene_unchanged(a, b),
        b.warnings@.len() == a.warnings@.len() + 1,
{
}

} // verus!
