//! The surface binding: the configured size of one window's drawable
//! surface, the reconfiguration policy applied before each frame, and the
//! acquire → present protocol for presentable textures.
use vstd::prelude::*;

verus! {

/// Width and height of a window's client area, in physical pixels.
#[derive(Clone, Copy, Debug, PartialEq, Eq, Structural)]
pub struct Size {
    pub width: u32,
    pub height: u32,
}

impl Size {
    /// A size with a nonzero width and a nonzero height.
    pub open spec fn has_area(self) -> bool {
        self.width > 0 && self.height > 0
    }

    /// The sentinel that stands for "not configured yet", 0×0.
    pub open spec fn spec_unconfigured() -> Size {
        Size { width: 0, height: 0 }
    }

    pub fn new(width: u32, height: u32) -> (r: Size)
        ensures
            r == (Size { width, height }),
    {
        Size { width, height }
    }

    pub fn unconfigured() -> (r: Size)
        ensures
            r == Size::spec_unconfigured(),
    {
        Size { width: 0, height: 0 }
    }

    pub fn is_ready(&self) -> (r: bool)
        ensures
            r == self.has_area(),
    {
        self.width > 0 && self.height > 0
    }
}

/// Pixel format of the presentable textures.
#[derive(Clone, Copy, Debug, PartialEq, Eq, Structural)]
pub enum SurfaceFormat {
    Bgra8Unorm,
}

/// How presentation is paced.
#[derive(Clone, Copy, Debug, PartialEq, Eq, Structural)]
pub enum PresentMode {
    /// Wait for vertical sync, with whatever mode the platform offers for it.
    AutoVsync,
}

/// How the surface's alpha channel is composited.
#[derive(Clone, Copy, Debug, PartialEq, Eq, Structural)]
pub enum AlphaMode {
    /// Whatever the platform uses by default.
    Auto,
}

/// What the presentable textures are used for.
#[derive(Clone, Copy, Debug, PartialEq, Eq, Structural)]
pub enum TextureUsage {
    RenderAttachment,
}

/// The configuration that is applied to a surface before it can hand out
/// presentable textures.
#[derive(Clone, Copy, Debug, PartialEq, Eq, Structural)]
pub struct SurfaceConfig {
    pub usage: TextureUsage,
    pub format: SurfaceFormat,
    pub width: u32,
    pub height: u32,
    pub present_mode: PresentMode,
    /// How many frames may be queued ahead of the one on screen.
    pub frame_latency: u32,
    pub alpha_mode: AlphaMode,
}

/// Number of frames that may be queued ahead (double buffering).
pub const FRAME_LATENCY: u32 = 2;

/// The configuration for a surface of the given size: render target usage,
/// BGRA8 format, vsync, a frame latency of two and the platform's alpha mode.
pub open spec fn config_for(size: Size) -> SurfaceConfig {
    SurfaceConfig {
        usage: TextureUsage::RenderAttachment,
        format: SurfaceFormat::Bgra8Unorm,
        width: size.width,
        height: size.height,
        present_mode: PresentMode::AutoVsync,
        frame_latency: 2,
        alpha_mode: AlphaMode::Auto,
    }
}

impl SurfaceConfig {
    pub fn for_size(size: Size) -> (r: SurfaceConfig)
        ensures
            r == config_for(size),
    {
        SurfaceConfig {
            usage: TextureUsage::RenderAttachment,
            format: SurfaceFormat::Bgra8Unorm,
            width: size.width,
            height: size.height,
            present_mode: PresentMode::AutoVsync,
            frame_latency: FRAME_LATENCY,
            alpha_mode: AlphaMode::Auto,
        }
    }
}

/// What a reconfiguration step decided.
#[derive(Clone, Copy, Debug, PartialEq, Eq, Structural)]
pub enum Reconfigure {
    /// The window has no area: no frame can be drawn now.
    NotReady,
    /// The surface is configured for the current size already.
    Current,
    /// The surface must be configured with this before the next texture.
    Apply(SurfaceConfig),
}

impl Reconfigure {
    pub fn is_configured(&self) -> (r: bool)
        ensures
            r == !(*self is NotReady),
    {
        !matches!(self, Reconfigure::NotReady)
    }
}

/// What the surface handed back when asked for its next presentable texture.
#[derive(Clone, Copy, Debug, PartialEq, Eq, Structural)]
pub enum TextureOutcome {
    Acquired,
    Timeout,
    Outdated,
    Lost,
    OutOfMemory,
}

impl TextureOutcome {
    /// A failure that reconfiguring the surface can mend.
    pub open spec fn is_transient(self) -> bool {
        self is Timeout || self is Outdated || self is Lost
    }
}

/// Conditions after which rendering cannot go on.
#[derive(Clone, Copy, Debug, PartialEq, Eq, Structural)]
pub enum FatalError {
    /// The device ran out of memory while handing out a texture.
    SurfaceOutOfMemory,
    /// A frame was asked for while the previous one was still live.
    SecondLiveFrame,
}

/// The first half of frame acquisition: what to do before asking the surface
/// for a texture.
#[derive(Clone, Copy, Debug, PartialEq, Eq, Structural)]
pub enum Acquire {
    /// Skip this frame silently (the window has no area).
    Skip,
    /// Apply `configure`, if any, then ask the surface for its next texture.
    Request { configure: Option<SurfaceConfig> },
}

/// A drawable surface bound to one window, built against one GPU backend.
#[derive(Clone, Copy, Debug, PartialEq, Eq, Structural)]
pub struct SurfaceBinding {
    /// Identity of the window the surface draws into.
    pub window: u64,
    /// Identity of the GPU backend the surface was built against.
    pub gpu: u64,
    /// The size of the last configuration applied, 0×0 if none is in force.
    pub last_configured: Size,
    /// A presentable texture has been handed out and not yet presented.
    pub frame_live: bool,
}

impl SurfaceBinding {
    pub open spec fn spec_bind(gpu: u64, window: u64) -> SurfaceBinding {
        SurfaceBinding { window, gpu, last_configured: Size::spec_unconfigured(), frame_live: false }
    }

    /// The binding after a reconfiguration step for `current`.
    pub open spec fn reconfigured(self, current: Size) -> SurfaceBinding {
        if current.has_area() {
            SurfaceBinding { last_configured: current, ..self }
        } else {
            self
        }
    }

    /// What a reconfiguration step for `current` decides.
    pub open spec fn reconfigure_outcome(self, current: Size) -> Reconfigure {
        if !current.has_area() {
            Reconfigure::NotReady
        } else if self.last_configured == current {
            Reconfigure::Current
        } else {
            Reconfigure::Apply(config_for(current))
        }
    }

    /// The binding after an attempt to acquire a frame for `current`.
    pub open spec fn after_acquire(self, current: Size) -> SurfaceBinding {
        if self.frame_live {
            self
        } else {
            self.reconfigured(current)
        }
    }

    /// What an attempt to acquire a frame for `current` returns.
    pub open spec fn acquire_outcome(self, current: Size) -> Result<Acquire, FatalError> {
        if self.frame_live {
            Err(FatalError::SecondLiveFrame)
        } else {
            match self.reconfigure_outcome(current) {
                Reconfigure::NotReady => Ok(Acquire::Skip),
                Reconfigure::Current => Ok(Acquire::Request { configure: None }),
                Reconfigure::Apply(c) => Ok(Acquire::Request { configure: Some(c) }),
            }
        }
    }

    /// The binding after the surface answered a texture request.
    pub open spec fn after_texture(self, outcome: TextureOutcome) -> SurfaceBinding {
        if self.frame_live {
            self
        } else {
            match outcome {
                TextureOutcome::Acquired => SurfaceBinding { frame_live: true, ..self },
                TextureOutcome::OutOfMemory => self,
                _ => SurfaceBinding { last_configured: Size::spec_unconfigured(), ..self },
            }
        }
    }

    /// Whether a frame is live after the surface answered a texture request,
    /// or the fatal condition it raised.
    pub open spec fn texture_result(self, outcome: TextureOutcome) -> Result<bool, FatalError> {
        if self.frame_live {
            Err(FatalError::SecondLiveFrame)
        } else {
            match outcome {
                TextureOutcome::Acquired => Ok(true),
                TextureOutcome::OutOfMemory => Err(FatalError::SurfaceOutOfMemory),
                _ => Ok(false),
            }
        }
    }

    /// Binds a new, unconfigured surface of `window` to the GPU backend `gpu`.
    pub fn bind(gpu: u64, window: u64) -> (r: SurfaceBinding)
        ensures
            r == SurfaceBinding::spec_bind(gpu, window),
    {
        SurfaceBinding { window, gpu, last_configured: Size::unconfigured(), frame_live: false }
    }

    /// Brings the configuration in line with the window's current size. A
    /// window without area leaves the binding as it is; a size that is
    /// configured already asks for nothing; any other size asks for one
    /// configuration and is recorded.
    pub fn reconfigure(&mut self, current: Size) -> (r: Reconfigure)
        ensures
            *final(self) == old(self).reconfigured(current),
            r == old(self).reconfigure_outcome(current),
    {
        if !current.is_ready() {
            Reconfigure::NotReady
        } else if self.last_configured == current {
            Reconfigure::Current
        } else {
            self.last_configured = current;
            Reconfigure::Apply(SurfaceConfig::for_size(current))
        }
    }

    /// First half of frame acquisition: reconfigures for `current` and says
    /// whether to ask the surface for a texture. Asking while a frame is live
    /// is a fatal error and changes nothing.
    pub fn acquire_frame(&mut self, current: Size) -> (r: Result<Acquire, FatalError>)
        ensures
            *final(self) == old(self).after_acquire(current),
            r == old(self).acquire_outcome(current),
    {
        if self.frame_live {
            return Err(FatalError::SecondLiveFrame);
        }
        match self.reconfigure(current) {
            Reconfigure::NotReady => Ok(Acquire::Skip),
            Reconfigure::Current => Ok(Acquire::Request { configure: None }),
            Reconfigure::Apply(c) => Ok(Acquire::Request { configure: Some(c) }),
        }
    }

    /// Second half of frame acquisition: takes what the surface handed back.
    /// A texture makes a frame live (`Ok(true)`); a transient failure drops
    /// the frame (`Ok(false)`) and forces a configuration on the next attempt;
    /// running out of memory is fatal.
    pub fn receive_texture(&mut self, outcome: TextureOutcome) -> (r: Result<bool, FatalError>)
        ensures
            *final(self) == old(self).after_texture(outcome),
            r == old(self).texture_result(outcome),
    {
        if self.frame_live {
            return Err(FatalError::SecondLiveFrame);
        }
        match outcome {
            TextureOutcome::Acquired => {
                self.frame_live = true;
                Ok(true)
            },
            TextureOutcome::OutOfMemory => Err(FatalError::SurfaceOutOfMemory),
            _ => {
                self.last_configured = Size::unconfigured();
                Ok(false)
            },
        }
    }

    /// Ends the live frame, once it has been presented or dropped.
    pub fn present(&mut self)
        ensures
            *final(self) == (SurfaceBinding { frame_live: false, ..*old(self) }),
    {
        self.frame_live = false;
    }
}

} // verus!
