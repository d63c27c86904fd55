use wgpu_context::diagnostics::Diagnostics;
use wgpu_context::error::InitError;
use wgpu_context::format::{
    select_format, surface_config, PresentMode, SurfaceConfig, SurfaceFormat, SurfaceSize,
    SurfaceUsage,
};
use wgpu_context::handshake::{Action, Event, Handshake, Platform, Stage};

fn feed(platform: Platform, events: Vec<Event>) -> (Handshake, Vec<Action>) {
    let (mut h, first) = Handshake::start(platform);
    let mut acts = vec![first];
    for e in events {
        let (next, a) = h.step(e);
        h = next;
        acts.push(a);
    }
    (h, acts)
}

fn web_until_window() -> Vec<Event> {
    vec![
        Event::TargetLookedUp { found: true },
        Event::CanvasChecked { is_canvas: true },
        Event::GraphicsProbed { supported: true },
    ]
}

#[test]
fn end_to_end_canvas_main_800_by_600() {
    let mut events = web_until_window();
    events.push(Event::WindowBuilt);
    events.push(Event::AdapterFound);
    events.push(Event::DeviceReady);
    events.push(Event::SurfaceQueried {
        size: SurfaceSize { width: 800, height: 600 },
        preferred: Some(SurfaceFormat::Bgra8UnormSrgb),
    });
    let (h, acts) = feed(Platform::WebEmbedded, events);
    let expected = SurfaceConfig {
        usage: SurfaceUsage::RenderAttachment,
        format: SurfaceFormat::Bgra8UnormSrgb,
        width: 800,
        height: 600,
        present_mode: PresentMode::Fifo,
    };
    assert_eq!(
        acts,
        vec![
            Action::LookUpTarget,
            Action::CheckCanvas,
            Action::ProbeGraphics,
            Action::BuildWindow,
            Action::RequestAdapter,
            Action::RequestDevice,
            Action::QuerySurface,
            Action::Configure(expected),
        ]
    );
    assert_eq!(h.stage, Stage::Ready(expected));
}

#[test]
fn native_builds_window_first_and_completes() {
    let events = vec![
        Event::WindowBuilt,
        Event::AdapterFound,
        Event::DeviceReady,
        Event::SurfaceQueried {
            size: SurfaceSize { width: 1024, height: 768 },
            preferred: Some(SurfaceFormat::Rgba8Unorm),
        },
    ];
    let (h, acts) = feed(Platform::Native, events);
    assert_eq!(acts[0], Action::BuildWindow);
    match h.stage {
        Stage::Ready(c) => {
            assert_eq!(c.width, 1024);
            assert_eq!(c.height, 768);
            assert_eq!(c.format, SurfaceFormat::Rgba8Unorm);
            assert_eq!(c.present_mode, PresentMode::Fifo);
        }
        other => panic!("unexpected stage {:?}", other),
    }
}

#[test]
fn unknown_target_fails_without_window() {
    let events = vec![
        Event::TargetLookedUp { found: false },
        Event::WindowBuilt,
        Event::AdapterFound,
    ];
    let (h, acts) = feed(Platform::WebEmbedded, events);
    assert_eq!(h.stage, Stage::Failed(InitError::TargetNotFound));
    assert_eq!(acts, vec![Action::LookUpTarget, Action::Abort, Action::Idle, Action::Idle]);
    assert!(!acts.contains(&Action::BuildWindow));
}

#[test]
fn non_canvas_target_is_invalid_type() {
    let events = vec![
        Event::TargetLookedUp { found: true },
        Event::CanvasChecked { is_canvas: false },
    ];
    let (h, acts) = feed(Platform::WebEmbedded, events);
    assert_eq!(h.stage, Stage::Failed(InitError::InvalidTargetType));
    assert_eq!(acts.last(), Some(&Action::Abort));
}

#[test]
fn missing_webgpu_fails_before_adapter_request() {
    let events = vec![
        Event::TargetLookedUp { found: true },
        Event::CanvasChecked { is_canvas: true },
        Event::GraphicsProbed { supported: false },
        Event::WindowBuilt,
        Event::AdapterFound,
    ];
    let (h, acts) = feed(Platform::WebEmbedded, events);
    assert_eq!(h.stage, Stage::Failed(InitError::GraphicsUnsupported));
    assert!(!acts.contains(&Action::RequestAdapter));
    assert!(!acts.contains(&Action::BuildWindow));
}

#[test]
fn window_failure_keeps_reason() {
    let (h, acts) = feed(Platform::Native, vec![Event::WindowFailed("no display".to_string())]);
    assert_eq!(h.stage, Stage::Failed(InitError::WindowCreationFailed("no display".to_string())));
    assert_eq!(acts, vec![Action::BuildWindow, Action::Abort]);
}

#[test]
fn missing_adapter_is_reported() {
    let (h, _) = feed(Platform::Native, vec![Event::WindowBuilt, Event::AdapterMissing]);
    assert_eq!(h.stage, Stage::Failed(InitError::NoCompatibleAdapter));
}

#[test]
fn device_failure_keeps_detail() {
    let events = vec![
        Event::WindowBuilt,
        Event::AdapterFound,
        Event::DeviceFailed("unsupported features".to_string()),
    ];
    let (h, acts) = feed(Platform::Native, events);
    assert_eq!(
        h.stage,
        Stage::Failed(InitError::DeviceNegotiationFailed("unsupported features".to_string()))
    );
    assert_eq!(acts.last(), Some(&Action::Abort));
}

#[test]
fn event_out_of_turn_is_ignored() {
    let (h, acts) = feed(Platform::Native, vec![Event::DeviceReady, Event::WindowBuilt]);
    assert_eq!(acts, vec![Action::BuildWindow, Action::Idle, Action::RequestAdapter]);
    assert_eq!(h.stage, Stage::AwaitingAdapter);
}

#[test]
fn ready_handshake_ignores_further_events() {
    let events = vec![
        Event::WindowBuilt,
        Event::AdapterFound,
        Event::DeviceReady,
        Event::SurfaceQueried { size: SurfaceSize { width: 1, height: 1 }, preferred: None },
        Event::DeviceFailed("late".to_string()),
    ];
    let (h, acts) = feed(Platform::Native, events);
    assert_eq!(acts.last(), Some(&Action::Idle));
    assert!(matches!(h.stage, Stage::Ready(_)));
}

#[test]
fn no_preferred_format_falls_back_to_bgra_srgb() {
    assert_eq!(select_format(None), SurfaceFormat::Bgra8UnormSrgb);
    let c = surface_config(SurfaceSize { width: 640, height: 480 }, None);
    assert_eq!(c.format, SurfaceFormat::Bgra8UnormSrgb);
    assert_eq!(c.usage, SurfaceUsage::RenderAttachment);
    assert_eq!((c.width, c.height), (640, 480));
}

#[test]
fn preferred_format_is_kept() {
    assert_eq!(select_format(Some(SurfaceFormat::Rgba8UnormSrgb)), SurfaceFormat::Rgba8UnormSrgb);
    assert_eq!(select_format(Some(SurfaceFormat::Bgra8Unorm)), SurfaceFormat::Bgra8Unorm);
}

#[test]
fn zero_and_largest_sizes_pass_through() {
    let c = surface_config(SurfaceSize { width: 0, height: u32::MAX }, None);
    assert_eq!(c.width, 0);
    assert_eq!(c.height, u32::MAX);
}

#[test]
fn diagnostics_install_only_once() {
    let mut d = Diagnostics::new();
    assert!(!d.registered);
    assert!(d.claim());
    assert!(d.registered);
    assert!(!d.claim());
    assert!(!d.claim());
    assert!(d.registered);
}
