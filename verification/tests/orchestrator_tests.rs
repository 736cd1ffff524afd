use xcap::blit::{blit_begin, blit_finish};
use xcap::error::CaptureError;
use xcap::orchestrator::{capture_after_blit, capture_after_composited, capture_begin, FlowStep};
use xcap::target::{CaptureTarget, MonitorInfo, Rect, WindowInfo};

fn monitor_target(width: i32, height: i32) -> CaptureTarget {
    CaptureTarget::Monitor {
        monitor: MonitorInfo { handle: 1, bounds: Rect { x: 0, y: 0, width, height } },
    }
}

fn window_target(client: Rect, minimized: bool) -> CaptureTarget {
    CaptureTarget::Window {
        window: WindowInfo {
            handle: 2,
            pid: 4242,
            monitor: MonitorInfo {
                handle: 1,
                bounds: Rect { x: 0, y: 0, width: 2560, height: 1440 },
            },
            client,
            minimized,
        },
    }
}

#[test]
fn a_zero_width_monitor_region_is_invalid_before_any_backend_runs() {
    let step = capture_begin(&monitor_target(0, 1080));
    match step {
        FlowStep::Finished { result } => {
            assert_eq!(result.unwrap_err(), CaptureError::InvalidRegion)
        },
        _ => panic!("no backend may be invoked for an empty region"),
    }
}

#[test]
fn a_zero_height_monitor_region_is_invalid_before_any_backend_runs() {
    let step = capture_begin(&monitor_target(1920, 0));
    match step {
        FlowStep::Finished { result } => {
            assert_eq!(result.unwrap_err(), CaptureError::InvalidRegion)
        },
        _ => panic!("no backend may be invoked for an empty region"),
    }
}

#[test]
fn a_valid_target_tries_the_composited_backend_first() {
    assert!(matches!(capture_begin(&monitor_target(1920, 1080)), FlowStep::RunComposited));
    let client = Rect { x: 10, y: 10, width: 640, height: 480 };
    assert!(matches!(capture_begin(&window_target(client, false)), FlowStep::RunComposited));
}

#[test]
fn fallback_returns_exactly_the_blit_backends_image() {
    // The composited backend is forced to fail with UnsupportedTarget.
    let step = capture_after_composited(Err(CaptureError::UnsupportedTarget));
    assert!(matches!(step, FlowStep::RunBlit));

    // The blit backend succeeds; its direct output ...
    let blit_image = blit_finish(1, 1, false, vec![1, 2, 3, 4]).unwrap();
    let expected = blit_image.clone();

    // ... is what the caller receives, unchanged.
    let step = capture_after_blit(Ok(blit_image));
    match step {
        FlowStep::Finished { result } => {
            let image = result.unwrap();
            assert_eq!(image.width, expected.width);
            assert_eq!(image.height, expected.height);
            assert_eq!(image.buffer, expected.buffer);
        },
        _ => panic!("the blit outcome ends the capture"),
    }
}

#[test]
fn when_both_backends_fail_the_blit_error_is_the_error_of_record() {
    let step = capture_after_composited(Err(CaptureError::CaptureTimeout));
    assert!(matches!(step, FlowStep::RunBlit));
    let step = capture_after_blit(Err(CaptureError::EmptySurface));
    match step {
        FlowStep::Finished { result } => {
            assert_eq!(result.unwrap_err(), CaptureError::EmptySurface)
        },
        _ => panic!("the blit outcome ends the capture"),
    }
}

#[test]
fn a_composited_image_ends_the_capture_without_a_blit_attempt() {
    let image = blit_finish(1, 1, false, vec![9, 9, 9, 9]).unwrap();
    let step = capture_after_composited(Ok(image));
    assert!(matches!(step, FlowStep::Finished { result: Ok(_) }));
}

#[test]
fn blit_planning_rejects_an_empty_monitor_region() {
    let plan = blit_begin(&monitor_target(0, 600));
    assert_eq!(plan.unwrap_err(), CaptureError::InvalidRegion);
}

#[test]
fn blit_planning_rejects_a_minimized_window() {
    let client = Rect { x: 0, y: 0, width: 640, height: 480 };
    let plan = blit_begin(&window_target(client, true));
    assert_eq!(plan.unwrap_err(), CaptureError::EmptySurface);
}

#[test]
fn blit_planning_rejects_a_window_without_client_area() {
    let client = Rect { x: 5, y: 5, width: 0, height: 0 };
    let plan = blit_begin(&window_target(client, false));
    assert_eq!(plan.unwrap_err(), CaptureError::EmptySurface);
}

#[test]
fn blit_planning_always_requests_top_down_extraction() {
    let plan = blit_begin(&monitor_target(800, 600)).unwrap();
    assert!(plan.top_down);
    assert_eq!((plan.x, plan.y, plan.width, plan.height), (0, 0, 800, 600));

    let client = Rect { x: 30, y: 40, width: 320, height: 200 };
    let plan = blit_begin(&window_target(client, false)).unwrap();
    assert!(plan.top_down);
    assert_eq!((plan.x, plan.y, plan.width, plan.height), (30, 40, 320, 200));
}

#[test]
fn blit_bits_of_the_wrong_size_are_a_defect() {
    let result = blit_finish(2, 2, false, vec![0u8; 7]);
    assert_eq!(result.unwrap_err(), CaptureError::BufferSizeMismatch);
}
