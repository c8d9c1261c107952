use surface_lifecycle::surface::{
    Acquire, AlphaMode, FatalError, PresentMode, Reconfigure, Size, SurfaceBinding,
    SurfaceConfig, SurfaceFormat, TextureOutcome, TextureUsage,
};

fn configured(width: u32, height: u32) -> SurfaceBinding {
    let mut b = SurfaceBinding::bind(1, 2);
    assert!(matches!(b.reconfigure(Size::new(width, height)), Reconfigure::Apply(_)));
    b
}

#[test]
fn bind_starts_unconfigured() {
    let b = SurfaceBinding::bind(5, 9);
    assert_eq!(b.gpu, 5);
    assert_eq!(b.window, 9);
    assert_eq!(b.last_configured, Size::new(0, 0));
    assert!(!b.frame_live);
}

#[test]
fn config_for_size_holds_the_policy() {
    let c = SurfaceConfig::for_size(Size::new(800, 600));
    assert_eq!(c.width, 800);
    assert_eq!(c.height, 600);
    assert_eq!(c.format, SurfaceFormat::Bgra8Unorm);
    assert_eq!(c.usage, TextureUsage::RenderAttachment);
    assert_eq!(c.present_mode, PresentMode::AutoVsync);
    assert_eq!(c.frame_latency, 2);
    assert_eq!(c.alpha_mode, AlphaMode::Auto);
}

#[test]
fn zero_width_or_height_is_not_ready_and_changes_nothing() {
    for size in [Size::new(0, 0), Size::new(0, 600), Size::new(800, 0)] {
        let mut b = configured(320, 240);
        let before = b;
        let r = b.reconfigure(size);
        assert_eq!(r, Reconfigure::NotReady);
        assert!(!r.is_configured());
        assert_eq!(b, before);
        assert_eq!(b.last_configured, Size::new(320, 240));
    }
}

#[test]
fn resize_sequence_configures_once_for_final_size() {
    let mut b = SurfaceBinding::bind(1, 2);
    let r = b.reconfigure(Size::new(1024, 768));
    assert_eq!(r, Reconfigure::Apply(SurfaceConfig::for_size(Size::new(1024, 768))));
    assert!(r.is_configured());
    assert_eq!(b.last_configured, Size::new(1024, 768));
    let r = b.reconfigure(Size::new(1024, 768));
    assert_eq!(r, Reconfigure::Current);
    assert!(r.is_configured());
    let r = b.reconfigure(Size::new(1024, 768));
    assert_eq!(r, Reconfigure::Current);
}

#[test]
fn acquire_present_acquire_has_no_second_live_frame() {
    let mut b = SurfaceBinding::bind(1, 2);
    let s = Size::new(640, 480);
    let first = b.acquire_frame(s);
    assert_eq!(
        first,
        Ok(Acquire::Request { configure: Some(SurfaceConfig::for_size(s)) })
    );
    assert_eq!(b.receive_texture(TextureOutcome::Acquired), Ok(true));
    assert!(b.frame_live);
    b.present();
    assert!(!b.frame_live);
    assert_eq!(b.acquire_frame(s), Ok(Acquire::Request { configure: None }));
}

#[test]
fn second_live_frame_is_fatal() {
    let mut b = SurfaceBinding::bind(1, 2);
    let s = Size::new(640, 480);
    assert!(b.acquire_frame(s).is_ok());
    assert_eq!(b.receive_texture(TextureOutcome::Acquired), Ok(true));
    let before = b;
    assert_eq!(b.acquire_frame(s), Err(FatalError::SecondLiveFrame));
    assert_eq!(b.receive_texture(TextureOutcome::Acquired), Err(FatalError::SecondLiveFrame));
    assert_eq!(b, before);
}

#[test]
fn lost_and_outdated_reset_configured_size() {
    for outcome in [TextureOutcome::Lost, TextureOutcome::Outdated, TextureOutcome::Timeout] {
        let mut b = configured(800, 600);
        assert_eq!(b.receive_texture(outcome), Ok(false));
        assert_eq!(b.last_configured, Size::new(0, 0));
        assert!(!b.frame_live);
        assert_eq!(
            b.reconfigure(Size::new(800, 600)),
            Reconfigure::Apply(SurfaceConfig::for_size(Size::new(800, 600)))
        );
    }
}

#[test]
fn out_of_memory_is_fatal() {
    let mut b = configured(800, 600);
    let before = b;
    assert_eq!(
        b.receive_texture(TextureOutcome::OutOfMemory),
        Err(FatalError::SurfaceOutOfMemory)
    );
    assert_eq!(b, before);
}

#[test]
fn minimized_window_skips_frame() {
    let mut b = configured(800, 600);
    assert_eq!(b.acquire_frame(Size::new(0, 0)), Ok(Acquire::Skip));
    assert_eq!(b.last_configured, Size::new(800, 600));
}
