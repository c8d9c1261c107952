//! The application state machine: which of window, GPU backend, surface and
//! overlay exist, and what the event loop must do next on each platform
//! lifecycle event. The outside work (creating a window, negotiating a GPU,
//! recording passes) is named by `Command`s and done by the caller, who
//! reports back through the matching event method.
use vstd::prelude::*;
use crate::surface::{
    Acquire, FatalError, Size, SurfaceBinding, SurfaceConfig, TextureOutcome,
};

verus! {

/// One piece of outside work, in the order in which it must be done.
#[derive(Clone, Copy, Debug, PartialEq, Eq, Structural)]
pub enum Command {
    /// Create the platform window, then report `window_created`.
    CreateWindow,
    /// Negotiate a GPU backend (against the window's surface where the
    /// platform allows it), then report `gpu_ready`.
    NegotiateGpu,
    /// Create a surface for the window from the GPU backend, then report
    /// `surface_bound`.
    BindSurface,
    /// Leave the event loop.
    Exit,
    /// Apply this configuration to the surface.
    Configure(SurfaceConfig),
    /// Ask the surface for its next texture, then report `texture_ready`.
    AcquireTexture,
    /// Record the pass that clears the background.
    ClearBackground,
    /// Build the overlay's resources against the current GPU backend.
    BuildOverlay,
    /// Record the overlay pass on top of the background.
    DrawOverlay,
    /// Finish the command encoder and submit it to the queue.
    Submit,
    /// Present the frame, then report `frame_presented`.
    Present,
    /// Ask the platform for another redraw.
    RequestRedraw,
}

/// The platform window, as far as the state machine reads it.
#[derive(Clone, Copy, Debug, PartialEq, Eq, Structural)]
pub struct WindowSlot {
    pub id: u64,
    /// The last client-area size the platform reported.
    pub size: Size,
}

/// The four independently present resources and the loop's own flags.
#[derive(Clone, Copy, Debug, PartialEq, Eq, Structural)]
pub struct AppState {
    /// Between a resume and the next suspend.
    pub active: bool,
    /// The event loop has not been asked to exit.
    pub running: bool,
    /// A GPU negotiation has been started and has not completed.
    pub negotiating: bool,
    pub window: Option<WindowSlot>,
    /// Identity of the GPU backend handle.
    pub gpu: Option<u64>,
    pub surface: Option<SurfaceBinding>,
    /// Identity of the GPU backend the overlay's resources were built against.
    pub overlay: Option<u64>,
}

/// The commands that make up one frame once a texture has been acquired:
/// clear, the overlay (built first if it has no resources for this GPU
/// backend), submit, present, and the next redraw.
pub open spec fn frame_commands(build_overlay: bool) -> Seq<Command> {
    if build_overlay {
        seq![
            Command::ClearBackground,
            Command::BuildOverlay,
            Command::DrawOverlay,
            Command::Submit,
            Command::Present,
            Command::RequestRedraw,
        ]
    } else {
        seq![
            Command::ClearBackground,
            Command::DrawOverlay,
            Command::Submit,
            Command::Present,
            Command::RequestRedraw,
        ]
    }
}

impl AppState {
    /// The surface never outlives its window, and the surface and overlay
    /// are built against the GPU backend the state holds.
    pub open spec fn wf(self) -> bool {
        &&& (self.surface matches Some(s) ==> {
            &&& self.window matches Some(w)
            &&& s.window == w.id
            &&& self.gpu == Some(s.gpu)
        })
        &&& (self.negotiating ==> self.gpu is None)
        &&& (self.overlay matches Some(g) ==> self.gpu == Some(g))
    }

    /// Window, GPU backend and surface are all present.
    pub open spec fn is_live(self) -> bool {
        self.window is Some && self.gpu is Some && self.surface is Some
    }

    pub open spec fn spec_new() -> AppState {
        AppState {
            active: false,
            running: true,
            negotiating: false,
            window: None,
            gpu: None,
            surface: None,
            overlay: None,
        }
    }

    /// The next step towards a live state, given which resources exist.
    pub open spec fn pending(self) -> Seq<Command> {
        if !self.running || !self.active {
            seq![]
        } else if self.window is None {
            seq![Command::CreateWindow]
        } else if self.gpu is None {
            if self.negotiating {
                seq![]
            } else {
                seq![Command::NegotiateGpu]
            }
        } else if self.surface is None {
            seq![Command::BindSurface]
        } else {
            seq![]
        }
    }

    /// The pending step is a GPU negotiation.
    pub open spec fn must_negotiate(self) -> bool {
        self.running && self.active && self.window is Some && self.gpu is None
            && !self.negotiating
    }

    /// The state once the pending step has been handed out.
    pub open spec fn settled(self) -> AppState {
        if self.must_negotiate() {
            AppState { negotiating: true, ..self }
        } else {
            self
        }
    }

    pub open spec fn after_resume(self) -> AppState {
        AppState { active: true, ..self }.settled()
    }

    pub open spec fn resume_commands(self) -> Seq<Command> {
        AppState { active: true, ..self }.pending()
    }

    pub open spec fn with_window(self, id: u64, size: Size) -> AppState {
        if self.window is None {
            AppState { window: Some(WindowSlot { id, size }), ..self }
        } else {
            self
        }
    }

    pub open spec fn with_gpu(self, gpu: u64) -> AppState {
        if self.gpu is None {
            AppState { gpu: Some(gpu), negotiating: false, ..self }
        } else {
            AppState { negotiating: false, ..self }
        }
    }

    /// A surface can be bound: window and GPU backend exist, no surface does.
    pub open spec fn can_bind(self) -> bool {
        self.window is Some && self.gpu is Some && self.surface is None
    }

    pub open spec fn with_surface(self) -> AppState {
        if self.can_bind() {
            AppState {
                surface: Some(
                    SurfaceBinding::spec_bind(self.gpu.unwrap(), self.window.unwrap().id),
                ),
                ..self
            }
        } else {
            self
        }
    }

    pub open spec fn surface_commands(self) -> Seq<Command> {
        if self.can_bind() {
            self.with_surface().pending().push(Command::RequestRedraw)
        } else {
            self.pending()
        }
    }

    pub open spec fn after_suspend(self) -> AppState {
        AppState { active: false, window: None, surface: None, ..self }
    }

    /// The state after a run of resize events, in order.
    pub open spec fn after_resizes(self, sizes: Seq<Size>) -> AppState
        decreases sizes.len(),
    {
        if sizes.len() == 0 {
            self
        } else {
            self.after_resizes(sizes.drop_last()).after_resize(sizes.last())
        }
    }

    pub open spec fn after_early_negotiation(self) -> AppState {
        if self.gpu is None {
            AppState { negotiating: true, ..self }
        } else {
            self
        }
    }

    pub open spec fn early_negotiation_commands(self) -> Seq<Command> {
        if self.gpu is None && !self.negotiating {
            seq![Command::NegotiateGpu]
        } else {
            seq![]
        }
    }

    pub open spec fn after_resize(self, size: Size) -> AppState {
        match self.window {
            Some(w) => AppState { window: Some(WindowSlot { size, ..w }), ..self },
            None => self,
        }
    }

    /// A redraw can go to the surface: the loop runs and all three
    /// resources are present.
    pub open spec fn can_draw(self) -> bool {
        self.running && self.is_live()
    }

    pub open spec fn after_redraw(self) -> AppState {
        if self.can_draw() {
            AppState {
                surface: Some(self.surface.unwrap().after_acquire(self.window.unwrap().size)),
                ..self
            }
        } else {
            self
        }
    }

    pub open spec fn redraw_result(self) -> Result<Seq<Command>, FatalError> {
        if self.can_draw() {
            match self.surface.unwrap().acquire_outcome(self.window.unwrap().size) {
                Err(e) => Err(e),
                Ok(Acquire::Skip) => Ok(seq![Command::RequestRedraw]),
                Ok(Acquire::Request { configure: None }) => Ok(seq![Command::AcquireTexture]),
                Ok(Acquire::Request { configure: Some(c) }) => Ok(
                    seq![Command::Configure(c), Command::AcquireTexture],
                ),
            }
        } else {
            Ok(seq![])
        }
    }

    pub open spec fn needs_overlay(self) -> bool {
        self.overlay != self.gpu
    }

    pub open spec fn after_texture(self, outcome: TextureOutcome) -> AppState {
        if self.surface is Some && self.gpu is Some {
            let s = self.surface.unwrap();
            let t = AppState { surface: Some(s.after_texture(outcome)), ..self };
            if s.texture_result(outcome) == Ok::<bool, FatalError>(true) {
                AppState { overlay: self.gpu, ..t }
            } else {
                t
            }
        } else {
            self
        }
    }

    pub open spec fn texture_commands(self, outcome: TextureOutcome) -> Result<
        Seq<Command>,
        FatalError,
    > {
        if self.surface is Some && self.gpu is Some {
            match self.surface.unwrap().texture_result(outcome) {
                Err(e) => Err(e),
                Ok(true) => Ok(frame_commands(self.needs_overlay())),
                Ok(false) => Ok(seq![Command::RequestRedraw]),
            }
        } else {
            Ok(seq![])
        }
    }

    pub open spec fn after_present(self) -> AppState {
        match self.surface {
            Some(s) => AppState { surface: Some(SurfaceBinding { frame_live: false, ..s }), ..self },
            None => self,
        }
    }

    /// A state with no window, GPU backend, surface or overlay yet.
    pub fn new() -> (r: AppState)
        ensures
            r == AppState::spec_new(),
            r.wf(),
    {
        AppState {
            active: false,
            running: true,
            negotiating: false,
            window: None,
            gpu: None,
            surface: None,
            overlay: None,
        }
    }

    /// Hands out the next step towards a live state, and marks a GPU
    /// negotiation as started when that is the step.
    fn settle(&mut self) -> (r: Vec<Command>)
        requires
            old(self).wf(),
        ensures
            *final(self) == old(self).settled(),
            r@ == old(self).pending(),
            final(self).wf(),
    {
        let mut r: Vec<Command> = Vec::new();
        if !self.running || !self.active {
        } else if self.window.is_none() {
            r.push(Command::CreateWindow);
        } else if self.gpu.is_none() {
            if !self.negotiating {
                self.negotiating = true;
                r.push(Command::NegotiateGpu);
            }
        } else if self.surface.is_none() {
            r.push(Command::BindSurface);
        }
        assert(r@ =~= old(self).pending());
        r
    }

    /// Starts the GPU negotiation ahead of any window, for platforms where
    /// it must happen asynchronously and without a surface to match.
    pub fn negotiate_early(&mut self) -> (r: Vec<Command>)
        requires
            old(self).wf(),
        ensures
            *final(self) == old(self).after_early_negotiation(),
            r@ == old(self).early_negotiation_commands(),
            final(self).wf(),
    {
        let mut r: Vec<Command> = Vec::new();
        if self.gpu.is_none() {
            if !self.negotiating {
                r.push(Command::NegotiateGpu);
            }
            self.negotiating = true;
        }
        assert(r@ =~= old(self).early_negotiation_commands());
        r
    }

    /// The platform resumed the application: work towards a live state.
    pub fn resume(&mut self) -> (r: Vec<Command>)
        requires
            old(self).wf(),
        ensures
            *final(self) == old(self).after_resume(),
            r@ == old(self).resume_commands(),
            final(self).wf(),
    {
        self.active = true;
        self.settle()
    }

    /// The window asked for by `CreateWindow` exists, with this identity and
    /// client-area size.
    pub fn window_created(&mut self, id: u64, size: Size) -> (r: Vec<Command>)
        requires
            old(self).wf(),
        ensures
            *final(self) == old(self).with_window(id, size).settled(),
            r@ == old(self).with_window(id, size).pending(),
            final(self).wf(),
    {
        if self.window.is_none() {
            self.window = Some(WindowSlot { id, size });
        }
        self.settle()
    }

    /// A GPU negotiation completed with the backend handle `gpu`. A handle
    /// that exists already is kept.
    pub fn gpu_ready(&mut self, gpu: u64) -> (r: Vec<Command>)
        requires
            old(self).wf(),
        ensures
            *final(self) == old(self).with_gpu(gpu).settled(),
            r@ == old(self).with_gpu(gpu).pending(),
            final(self).wf(),
    {
        if self.gpu.is_none() {
            self.gpu = Some(gpu);
        }
        self.negotiating = false;
        self.settle()
    }

    /// The surface asked for by `BindSurface` exists. A new binding starts
    /// the redraw loop.
    pub fn surface_bound(&mut self) -> (r: Vec<Command>)
        requires
            old(self).wf(),
        ensures
            *final(self) == old(self).with_surface().settled(),
            r@ == old(self).surface_commands(),
            final(self).wf(),
    {
        match (self.window, self.gpu, self.surface) {
            (Some(w), Some(g), None) => {
                self.surface = Some(SurfaceBinding::bind(g, w.id));
                let mut r = self.settle();
                r.push(Command::RequestRedraw);
                r
            },
            _ => self.settle(),
        }
    }

    /// The platform suspended the application: window and surface go, the
    /// GPU backend handle and the overlay's resources stay.
    pub fn suspend(&mut self) -> (r: Vec<Command>)
        requires
            old(self).wf(),
        ensures
            *final(self) == old(self).after_suspend(),
            r@ == Seq::<Command>::empty(),
            final(self).wf(),
    {
        self.active = false;
        self.surface = None;
        self.window = None;
        Vec::new()
    }

    /// The window was asked to close: the event loop ends.
    pub fn close_requested(&mut self) -> (r: Vec<Command>)
        requires
            old(self).wf(),
        ensures
            *final(self) == (AppState { running: false, ..*old(self) }),
            r@ == seq![Command::Exit],
            final(self).wf(),
    {
        self.running = false;
        let mut r: Vec<Command> = Vec::new();
        r.push(Command::Exit);
        r
    }

    /// The window's client area changed size. The size is only recorded:
    /// the surface is reconfigured on the next frame.
    pub fn resized(&mut self, size: Size) -> (r: Vec<Command>)
        requires
            old(self).wf(),
        ensures
            *final(self) == old(self).after_resize(size),
            r@ == Seq::<Command>::empty(),
            final(self).wf(),
    {
        if let Some(w) = self.window {
            self.window = Some(WindowSlot { size, ..w });
        }
        Vec::new()
    }

    /// The platform asked for a redraw: start acquiring a frame, when window,
    /// GPU backend and surface all exist.
    pub fn redraw_requested(&mut self) -> (r: Result<Vec<Command>, FatalError>)
        requires
            old(self).wf(),
        ensures
            *final(self) == old(self).after_redraw(),
            match (r, old(self).redraw_result()) {
                (Ok(v), Ok(c)) => v@ == c,
                (Err(e), Err(f)) => e == f,
                _ => false,
            },
            final(self).wf(),
    {
        if !self.running || self.window.is_none() || self.gpu.is_none() {
            return Ok(Vec::new());
        }
        let size = self.window.unwrap().size;
        match self.surface {
            None => Ok(Vec::new()),
            Some(mut s) => {
                let step = s.acquire_frame(size);
                self.surface = Some(s);
                let mut r: Vec<Command> = Vec::new();
                match step {
                    Err(e) => {
                        return Err(e);
                    },
                    Ok(Acquire::Skip) => {
                        r.push(Command::RequestRedraw);
                    },
                    Ok(Acquire::Request { configure }) => {
                        if let Some(c) = configure {
                            r.push(Command::Configure(c));
                        }
                        r.push(Command::AcquireTexture);
                    },
                }
                assert(r@ =~= old(self).redraw_result().unwrap());
                Ok(r)
            },
        }
    }

    /// The surface answered `AcquireTexture`. With a texture, the frame's
    /// commands follow; after a transient failure, only the next redraw.
    pub fn texture_ready(&mut self, outcome: TextureOutcome) -> (r: Result<Vec<Command>, FatalError>)
        requires
            old(self).wf(),
        ensures
            *final(self) == old(self).after_texture(outcome),
            match (r, old(self).texture_commands(outcome)) {
                (Ok(v), Ok(c)) => v@ == c,
                (Err(e), Err(f)) => e == f,
                _ => false,
            },
            final(self).wf(),
    {
        let g = match self.gpu {
            Some(g) => g,
            None => {
                return Ok(Vec::new());
            },
        };
        match self.surface {
            None => Ok(Vec::new()),
            Some(mut s) => {
                let got = s.receive_texture(outcome);
                self.surface = Some(s);
                let mut r: Vec<Command> = Vec::new();
                match got {
                    Err(e) => {
                        return Err(e);
                    },
                    Ok(false) => {
                        r.push(Command::RequestRedraw);
                    },
                    Ok(true) => {
                        r.push(Command::ClearBackground);
                        if self.overlay != Some(g) {
                            r.push(Command::BuildOverlay);
                            self.overlay = Some(g);
                        }
                        r.push(Command::DrawOverlay);
                        r.push(Command::Submit);
                        r.push(Command::Present);
                        r.push(Command::RequestRedraw);
                    },
                }
                assert(r@ =~= old(self).texture_commands(outcome).unwrap());
                Ok(r)
            },
        }
    }

    /// The live frame was presented.
    pub fn frame_presented(&mut self)
        requires
            old(self).wf(),
        ensures
            *final(self) == old(self).after_present(),
            final(self).wf(),
    {
        if let Some(mut s) = self.surface {
            s.present();
            self.surface = Some(s);
        }
    }

}

} // verus!
