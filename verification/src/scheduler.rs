//! The per-frame scheduler state machine: uninitialized until a device is
//! acquired, then ready, ticking once per compositor frame, until torn down
//! or hit by a fatal GPU error. A transient frame-acquisition failure skips
//! the tick without advancing animation time and without leaving the ready
//! state.

use vstd::prelude::*;

use crate::gpu::{surface_config_spec, AcquireOutcome, GpuContext};

verus! {

/// The scheduler's lifecycle state.
#[derive(Clone, Copy, Debug, PartialEq, Eq, Structural)]
pub enum SchedulerPhase {
    Uninitialized,
    Ready,
    Stopped,
}

/// What one render tick reports back.
#[derive(Clone, Copy, Debug, PartialEq, Eq, Structural)]
pub enum TickOutcome {
    /// A frame was rendered and presented; `drawn` counts the mirrored mesh
    /// entries drawn into it.
    Presented { drawn: usize },
    /// The tick was skipped; nothing was presented.
    Skipped,
}

/// The scheduler's state: its phase and the animation timestamp of the last
/// presented frame.
#[derive(Clone, Copy, Debug, PartialEq, Eq, Structural)]
pub struct SchedulerCore {
    pub phase: SchedulerPhase,
    pub last_timestamp: u64,
}

/// The phase after one tick: a fatal acquisition outcome stops a ready
/// scheduler; everything else leaves the phase alone.
pub open spec fn tick_phase(phase: SchedulerPhase, outcome: AcquireOutcome) -> SchedulerPhase {
    match phase {
        SchedulerPhase::Ready => match outcome {
            AcquireOutcome::Fatal => SchedulerPhase::Stopped,
            _ => SchedulerPhase::Ready,
        },
        _ => phase,
    }
}

/// Whether one tick presents a frame: only a ready scheduler with an
/// acquired frame does.
pub open spec fn tick_presents(core: SchedulerCore, outcome: AcquireOutcome) -> bool {
    core.phase is Ready && outcome is Frame
}

/// The scheduler state after one tick: the phase follows the acquisition
/// outcome, and animation time advances exactly when a frame is presented.
pub open spec fn tick_core(
    core: SchedulerCore,
    outcome: AcquireOutcome,
    timestamp: u64,
) -> SchedulerCore {
    SchedulerCore {
        phase: tick_phase(core.phase, outcome),
        last_timestamp: if tick_presents(core, outcome) {
            timestamp
        } else {
            core.last_timestamp
        },
    }
}

impl SchedulerCore {
    /// The state a freshly initialized scheduler starts in.
    pub fn ready() -> (c: SchedulerCore)
        ensures
            c == (SchedulerCore { phase: SchedulerPhase::Ready, last_timestamp: 0u64 }),
    {
        SchedulerCore { phase: SchedulerPhase::Ready, last_timestamp: 0 }
    }

    /// Advances the scheduler by one tick for the given acquisition outcome.
    pub fn tick(&mut self, outcome: AcquireOutcome, timestamp: u64) -> (presents: bool)
        ensures
            *final(self) == tick_core(*old(self), outcome, timestamp),
            presents == tick_presents(*old(self), outcome),
    {
        match self.phase {
            SchedulerPhase::Ready => match outcome {
                AcquireOutcome::Frame => {
                    self.last_timestamp = timestamp;
                    true
                },
                AcquireOutcome::Transient => false,
                AcquireOutcome::Fatal => {
                    self.phase = SchedulerPhase::Stopped;
                    false
                },
            },
            _ => false,
        }
    }
}

/// Law: a transient acquisition failure neither stops the scheduler nor
/// advances animation time, and after re-applying the surface configuration
/// the very next tick can present: the skipped frame is recovered from
/// without any failure.
pub proof fn law_tick_recovers_after_transient(
    core: SchedulerCore,
    gpu: GpuContext,
    t1: u64,
    width: u32,
    height: u32,
    t2: u64,
)
    requires
        core.phase is Ready,
        gpu.wf(),
        gpu.surface_attached,
    ensures
        tick_core(core, AcquireOutcome::Transient, t1).phase is Ready,
        tick_core(core, AcquireOutcome::Transient, t1).last_timestamp == core.last_timestamp,
        (GpuContext { config: Some(surface_config_spec(width, height)), ..gpu }).wf(),
        tick_presents(tick_core(core, AcquireOutcome::Transient, t1), AcquireOutcome::Frame),
        tick_core(
            tick_core(core, AcquireOutcome::Transient, t1),
            AcquireOutcome::Frame,
            t2,
        ).last_timestamp == t2,
{
}

} // verus!
