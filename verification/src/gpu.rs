//! A model of the GPU context: device and surface lifecycle and the surface
//! configuration the editor always presents with. The host performs the
//! actual device and surface calls and reports their outcomes; this module
//! decides what each outcome means for the session and enforces the
//! teardown order (the surface is released strictly before the device).

use vstd::prelude::*;

verus! {

/// The pixel format the editor always configures its surface with.
#[derive(Clone, Copy, Debug, PartialEq, Eq, Structural)]
pub enum TextureFormat {
    Rgba8Unorm,
}

/// The presentation mode the editor always configures its surface with
/// (first-in first-out, i.e. vsync).
#[derive(Clone, Copy, Debug, PartialEq, Eq, Structural)]
pub enum PresentMode {
    Fifo,
}

/// The alpha compositing mode the editor always configures its surface with.
#[derive(Clone, Copy, Debug, PartialEq, Eq, Structural)]
pub enum CompositeAlphaMode {
    PreMultiplied,
}

/// A presentable surface configuration.
#[derive(Clone, Copy, Debug, PartialEq, Eq, Structural)]
pub struct SurfaceConfig {
    pub format: TextureFormat,
    pub width: u32,
    pub height: u32,
    pub present_mode: PresentMode,
    pub alpha_mode: CompositeAlphaMode,
    pub desired_maximum_frame_latency: u32,
}

/// The one surface configuration the editor uses: fixed pixel format, vsync
/// presentation, pre-multiplied alpha and double-buffered latency; only the
/// pixel size varies.
pub open spec fn surface_config_spec(width: u32, height: u32) -> SurfaceConfig {
    SurfaceConfig {
        format: TextureFormat::Rgba8Unorm,
        width,
        height,
        present_mode: PresentMode::Fifo,
        alpha_mode: CompositeAlphaMode::PreMultiplied,
        desired_maximum_frame_latency: 2,
    }
}

/// Builds the surface configuration for a pixel size.
pub fn surface_config_for(width: u32, height: u32) -> (c: SurfaceConfig)
    ensures
        c == surface_config_spec(width, height),
{
    SurfaceConfig {
        format: TextureFormat::Rgba8Unorm,
        width,
        height,
        present_mode: PresentMode::Fifo,
        alpha_mode: CompositeAlphaMode::PreMultiplied,
        desired_maximum_frame_latency: 2,
    }
}

/// What the host reports back from requesting an adapter and device.
#[derive(Clone, Copy, Debug)]
pub enum GpuInitOutcome {
    /// A compatible device and queue were acquired and the presentation
    /// target was attached as a surface.
    DeviceAcquired,
    /// No compatible adapter or device is available; fatal, not retried.
    NoCompatibleAdapter,
}

/// What the host reports back from acquiring the next presentable frame.
#[derive(Clone, Copy, Debug)]
pub enum AcquireOutcome {
    /// A frame was acquired and can be rendered to and presented.
    Frame,
    /// The surface was temporarily unavailable; the tick is skipped and the
    /// next tick retries.
    Transient,
    /// The device was lost; fatal to the session.
    Fatal,
}

/// The editor's view of the GPU context: whether the device is live,
/// whether a surface is attached, and the surface configuration last
/// applied.
#[derive(Clone, Copy, Debug)]
pub struct GpuContext {
    pub device_live: bool,
    pub surface_attached: bool,
    pub config: Option<SurfaceConfig>,
}

impl GpuContext {
    /// Invariant: an attached surface always has a live device under it and
    /// a configuration applied.
    pub open spec fn wf(&self) -> bool {
        self.surface_attached ==> self.device_live && self.config is Some
    }

    /// Decides what a device initialization outcome means: a context
    /// configured at the given size on success, nothing on failure.
    pub fn initialize(outcome: GpuInitOutcome, width: u32, height: u32) -> (r: Option<GpuContext>)
        ensures
            match r {
                Option::Some(g) => outcome is DeviceAcquired && g.wf() && g.device_live
                    && g.surface_attached && g.config == Some(surface_config_spec(width, height)),
                Option::None => outcome is NoCompatibleAdapter,
            },
    {
        match outcome {
            GpuInitOutcome::DeviceAcquired => Option::Some(
                GpuContext {
                    device_live: true,
                    surface_attached: true,
                    config: Option::Some(surface_config_for(width, height)),
                },
            ),
            GpuInitOutcome::NoCompatibleAdapter => Option::None,
        }
    }

    /// Re-applies the surface configuration at a new pixel size; callable
    /// any time while the surface is attached.
    pub fn reconfigure(&mut self, width: u32, height: u32)
        requires
            old(self).wf(),
            old(self).surface_attached,
        ensures
            final(self).wf(),
            final(self).config == Some(surface_config_spec(width, height)),
            final(self).device_live == old(self).device_live,
            final(self).surface_attached == old(self).surface_attached,
    {
        self.config = Option::Some(surface_config_for(width, height));
    }

    /// Releases the surface. Must happen strictly before the device is
    /// released.
    pub fn detach_surface(&mut self)
        requires
            old(self).wf(),
        ensures
            final(self).wf(),
            !final(self).surface_attached,
            final(self).device_live == old(self).device_live,
            final(self).config == old(self).config,
    {
        self.surface_attached = false;
    }

    /// Releases the device. Requires that the surface has already been
    /// detached: dropping the context with a surface still attached is a
    /// resource-lifetime bug this precondition rules out.
    pub fn release_device(&mut self)
        requires
            old(self).wf(),
            !old(self).surface_attached,
        ensures
            final(self).wf(),
            !final(self).device_live,
            !final(self).surface_attached,
    {
        self.device_live = false;
    }

    /// Marks the device lost after a fatal GPU error.
    pub fn mark_device_lost(&mut self)
        requires
            old(self).wf(),
        ensures
            final(self).wf(),
            !final(self).device_live,
            !final(self).surface_attached,
            final(self).config == old(self).config,
    {
        self.surface_attached = false;
        self.device_live = false;
    }
}

} // verus!
