//! Properties that relate several steps of the surface binding and of the
//! application state machine.
use vstd::prelude::*;
use crate::lifecycle::{AppState, Command, WindowSlot};
use crate::surface::{config_for, FatalError, Reconfigure, Size, SurfaceBinding, TextureOutcome};

verus! {

/// A window without area is never configured for: reconfiguring for it
/// returns `NotReady` and leaves the binding, its configured size included,
/// as it was.
pub proof fn zero_area_is_not_ready(b: SurfaceBinding, current: Size)
    requires
        current.width == 0 || current.height == 0,
    ensures
        b.reconfigure_outcome(current) == Reconfigure::NotReady,
        b.reconfigured(current) == b,
        b.reconfigured(current).last_configured == b.last_configured,
{
}

/// Reconfiguring for a size with area applies a configuration for it
/// exactly when it is not the configured size, and a second step for the
/// same size applies nothing.
pub proof fn reconfigure_is_idempotent(b: SurfaceBinding, s: Size)
    requires
        s.has_area(),
    ensures
        b.reconfigured(s).last_configured == s,
        b.reconfigure_outcome(s) == (if b.last_configured == s {
            Reconfigure::Current
        } else {
            Reconfigure::Apply(config_for(s))
        }),
        b.reconfigured(s).reconfigure_outcome(s) == Reconfigure::Current,
        b.reconfigured(s).reconfigured(s) == b.reconfigured(s),
{
}

proof fn lemma_after_resizes(a: AppState, sizes: Seq<Size>)
    requires
        a.window is Some,
    ensures
        a.after_resizes(sizes) == (AppState {
            window: Some(
                WindowSlot {
                    size: if sizes.len() == 0 {
                        a.window.unwrap().size
                    } else {
                        sizes.last()
                    },
                    ..a.window.unwrap()
                },
            ),
            ..a
        }),
    decreases sizes.len(),
{
    if sizes.len() > 0 {
        lemma_after_resizes(a, sizes.drop_last());
    }
}

/// After any run of resize events that ends in a size `s` with area, the
/// next redraw configures the surface at most once, for `s`, and only if it
/// is not configured for `s` already; the redraw after it configures nothing.
pub proof fn resizes_configure_once(a: AppState, sizes: Seq<Size>)
    requires
        a.wf(),
        a.running,
        a.is_live(),
        !a.surface.unwrap().frame_live,
        sizes.len() > 0,
        sizes.last().has_area(),
    ensures
        ({
            let s = sizes.last();
            let b = a.after_resizes(sizes);
            let c = b.after_redraw();
            &&& b.window.unwrap().size == s
            &&& b.redraw_result() == if a.surface.unwrap().last_configured == s {
                Ok::<Seq<Command>, FatalError>(seq![Command::AcquireTexture])
            } else {
                Ok(seq![Command::Configure(config_for(s)), Command::AcquireTexture])
            }
            &&& c.surface.unwrap().last_configured == s
            &&& c.redraw_result() == Ok::<Seq<Command>, FatalError>(
                seq![Command::AcquireTexture],
            )
        }),
{
    lemma_after_resizes(a, sizes);
}

/// Acquiring a frame, whatever the surface hands back short of a fatal
/// error, and presenting it leaves no live frame: the next redraw never
/// raises the second-live-frame error.
pub proof fn present_ends_frame(a: AppState, outcome: TextureOutcome)
    requires
        a.wf(),
        a.running,
        a.is_live(),
        !a.surface.unwrap().frame_live,
        !(outcome is OutOfMemory),
    ensures
        a.redraw_result() is Ok,
        a.after_redraw().texture_commands(outcome) is Ok,
        a.after_redraw().after_texture(outcome).after_present().redraw_result() is Ok,
{
}

/// A transient failure (lost, outdated, timed out) drops the frame and
/// resets the configured size to the unconfigured sentinel, so that the
/// next reconfiguration for a size with area applies a configuration.
pub proof fn transient_failure_forces_reconfigure(
    b: SurfaceBinding,
    outcome: TextureOutcome,
    s: Size,
)
    requires
        !b.frame_live,
        outcome.is_transient(),
        s.has_area(),
    ensures
        b.texture_result(outcome) == Ok::<bool, FatalError>(false),
        b.after_texture(outcome).last_configured == Size::spec_unconfigured(),
        !b.after_texture(outcome).frame_live,
        b.after_texture(outcome).reconfigure_outcome(s) == Reconfigure::Apply(config_for(s)),
{
}

/// Suspending and resuming keeps the GPU backend handle and the overlay's
/// resources: the window and the surface are made again, and no GPU
/// negotiation is asked for.
pub proof fn suspend_resume_keeps_gpu(a: AppState, id: u64, size: Size)
    requires
        a.wf(),
        a.running,
        a.gpu is Some,
    ensures
        ({
            let s = a.after_suspend();
            let r = s.after_resume();
            let w = r.with_window(id, size);
            let b = w.settled().with_surface().settled();
            &&& s.gpu == a.gpu && s.overlay == a.overlay
            &&& s.window is None && s.surface is None
            &&& s.resume_commands() == seq![Command::CreateWindow]
            &&& w.pending() == seq![Command::BindSurface]
            &&& b.gpu == a.gpu && b.overlay == a.overlay
            &&& b.is_live()
            &&& b.surface.unwrap().gpu == a.gpu.unwrap()
            &&& b.window.unwrap().id == id
            &&& b.pending() == Seq::<Command>::empty()
        }),
{
}

/// The window and the GPU backend may arrive in either order: both orders
/// reach the same live state.
pub proof fn arrival_order_converges(a: AppState, id: u64, size: Size, g: u64)
    requires
        a.wf(),
        a.running,
        a.window is None,
        a.gpu is None,
        !a.negotiating,
    ensures
        ({
            let window_first = a.after_resume().with_window(id, size).settled().with_gpu(
                g,
            ).settled().with_surface().settled();
            let gpu_first = a.after_early_negotiation().with_gpu(g).settled().after_resume().with_window(
                id,
                size,
            ).settled().with_surface().settled();
            &&& window_first == gpu_first
            &&& window_first.is_live()
            &&& window_first.wf()
        }),
{
}

} // verus!
