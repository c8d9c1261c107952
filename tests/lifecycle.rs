use surface_lifecycle::lifecycle::{AppState, Command};
use surface_lifecycle::surface::{FatalError, Size, SurfaceConfig, TextureOutcome};

fn live(width: u32, height: u32) -> AppState {
    let mut a = AppState::new();
    assert_eq!(a.resume(), vec![Command::CreateWindow]);
    assert_eq!(a.window_created(11, Size::new(width, height)), vec![Command::NegotiateGpu]);
    assert_eq!(a.gpu_ready(42), vec![Command::BindSurface]);
    assert_eq!(a.surface_bound(), vec![Command::RequestRedraw]);
    a
}

#[test]
fn new_state_is_dormant() {
    let a = AppState::new();
    assert!(a.running);
    assert!(!a.active);
    assert!(a.window.is_none() && a.gpu.is_none() && a.surface.is_none() && a.overlay.is_none());
}

#[test]
fn zero_size_then_resize_end_to_end() {
    let mut a = live(0, 0);
    assert_eq!(a.redraw_requested(), Ok(vec![Command::RequestRedraw]));
    assert_eq!(a.resized(Size::new(800, 600)), vec![]);
    assert_eq!(
        a.redraw_requested(),
        Ok(vec![
            Command::Configure(SurfaceConfig::for_size(Size::new(800, 600))),
            Command::AcquireTexture,
        ])
    );
    let frame = a.texture_ready(TextureOutcome::Acquired).unwrap();
    assert_eq!(
        frame,
        vec![
            Command::ClearBackground,
            Command::BuildOverlay,
            Command::DrawOverlay,
            Command::Submit,
            Command::Present,
            Command::RequestRedraw,
        ]
    );
    assert_eq!(frame.iter().filter(|c| **c == Command::ClearBackground).count(), 1);
    assert_eq!(frame.iter().filter(|c| **c == Command::DrawOverlay).count(), 1);
    a.frame_presented();
    assert!(!a.surface.unwrap().frame_live);
    assert_eq!(a.redraw_requested(), Ok(vec![Command::AcquireTexture]));
    assert_eq!(
        a.texture_ready(TextureOutcome::Acquired),
        Ok(vec![
            Command::ClearBackground,
            Command::DrawOverlay,
            Command::Submit,
            Command::Present,
            Command::RequestRedraw,
        ])
    );
}

#[test]
fn repeated_resizes_configure_once() {
    let mut a = live(100, 100);
    for s in [Size::new(200, 100), Size::new(0, 0), Size::new(300, 400)] {
        a.resized(s);
    }
    assert_eq!(a.window.unwrap().size, Size::new(300, 400));
    assert_eq!(
        a.redraw_requested(),
        Ok(vec![
            Command::Configure(SurfaceConfig::for_size(Size::new(300, 400))),
            Command::AcquireTexture,
        ])
    );
    assert_eq!(a.texture_ready(TextureOutcome::Timeout), Ok(vec![Command::RequestRedraw]));
    assert_eq!(
        a.redraw_requested(),
        Ok(vec![
            Command::Configure(SurfaceConfig::for_size(Size::new(300, 400))),
            Command::AcquireTexture,
        ])
    );
    assert_eq!(a.texture_ready(TextureOutcome::Acquired).map(|c| c.len()), Ok(6));
    a.frame_presented();
    assert_eq!(a.redraw_requested(), Ok(vec![Command::AcquireTexture]));
}

#[test]
fn suspend_resume_keeps_gpu_handle() {
    let mut a = live(800, 600);
    assert!(a.redraw_requested().is_ok());
    assert!(a.texture_ready(TextureOutcome::Acquired).is_ok());
    a.frame_presented();
    let gpu = a.gpu;
    let overlay = a.overlay;
    assert_eq!(a.suspend(), vec![]);
    assert!(a.window.is_none() && a.surface.is_none());
    assert_eq!(a.gpu, gpu);
    assert_eq!(a.redraw_requested(), Ok(vec![]));
    assert_eq!(a.resume(), vec![Command::CreateWindow]);
    assert_eq!(a.window_created(12, Size::new(800, 600)), vec![Command::BindSurface]);
    assert_eq!(a.surface_bound(), vec![Command::RequestRedraw]);
    assert_eq!(a.gpu, Some(42));
    assert_eq!(a.overlay, overlay);
    let s = a.surface.unwrap();
    assert_eq!(s.gpu, 42);
    assert_eq!(s.window, 12);
    assert_eq!(s.last_configured, Size::new(0, 0));
}

#[test]
fn gpu_first_and_window_first_converge() {
    let window_first = live(640, 480);
    let mut gpu_first = AppState::new();
    assert_eq!(gpu_first.negotiate_early(), vec![Command::NegotiateGpu]);
    assert_eq!(gpu_first.negotiate_early(), vec![]);
    assert_eq!(gpu_first.resume(), vec![Command::CreateWindow]);
    assert_eq!(gpu_first.gpu_ready(42), vec![Command::CreateWindow]);
    assert_eq!(gpu_first.window_created(11, Size::new(640, 480)), vec![Command::BindSurface]);
    assert_eq!(gpu_first.surface_bound(), vec![Command::RequestRedraw]);
    assert_eq!(gpu_first, window_first);
}

#[test]
fn no_second_negotiation_while_one_runs() {
    let mut a = AppState::new();
    a.resume();
    assert_eq!(a.window_created(1, Size::new(10, 10)), vec![Command::NegotiateGpu]);
    assert!(a.negotiating);
    assert_eq!(a.resume(), vec![]);
    assert_eq!(a.redraw_requested(), Ok(vec![]));
    assert_eq!(a.surface_bound(), vec![]);
    assert_eq!(a.gpu_ready(5), vec![Command::BindSurface]);
    assert!(!a.negotiating);
    assert_eq!(a.gpu_ready(6), vec![Command::BindSurface]);
    assert_eq!(a.gpu, Some(5));
}

#[test]
fn close_requested_exits() {
    let mut a = live(800, 600);
    assert_eq!(a.close_requested(), vec![Command::Exit]);
    assert!(!a.running);
    assert_eq!(a.redraw_requested(), Ok(vec![]));
    assert_eq!(a.resume(), vec![]);
}

#[test]
fn fatal_conditions_propagate() {
    let mut a = live(800, 600);
    assert!(a.redraw_requested().is_ok());
    assert_eq!(
        a.texture_ready(TextureOutcome::OutOfMemory),
        Err(FatalError::SurfaceOutOfMemory)
    );
    assert!(a.texture_ready(TextureOutcome::Acquired).is_ok());
    assert_eq!(a.redraw_requested(), Err(FatalError::SecondLiveFrame));
}
