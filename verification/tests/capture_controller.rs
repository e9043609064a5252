use rustframe::capture::{
    capture_region, CaptureAction, CaptureController, CaptureEvent, CaptureRect, CaptureSettings,
    CaptureStartOptions,
};
use rustframe::platform::Platform;
use rustframe::services::{CaptureExclusions, WindowFilterMode};
use rustframe::settings::CaptureMethod;
use std::cell::Cell;
use std::rc::Rc;

/// A capture engine of the test platform: how often it was stopped, and where it started.
#[derive(Default)]
struct MockEngine {
    stop_calls: Rc<Cell<usize>>,
    start_region: Option<CaptureRect>,
    method: Option<CaptureMethod>,
}

/// What the application keeps: the engine, and the capture flags.
struct MockState {
    settings: CaptureSettings,
    remember_last_region: bool,
    capture_engine: Option<MockEngine>,
    is_capturing: bool,
    render_thread_stop: bool,
    last_region: Option<[i32; 4]>,
}

/// A platform that records what it is asked to do, by the names of the platform services.
#[derive(Default)]
struct MockPlatform {
    calls: Vec<&'static str>,
    fail_engine_start: usize,
    capture_rect: Option<(i32, i32, i32, i32)>,
    exclusions: Vec<CaptureExclusions>,
}

fn default_settings() -> CaptureSettings {
    CaptureSettings {
        border_width: 4,
        show_cursor: false,
        capture_method: CaptureMethod::CoreGraphics,
        capture_clicks: true,
        window_filter_mode: WindowFilterMode::Unfiltered,
    }
}

fn build_test_state(settings: CaptureSettings) -> MockState {
    MockState {
        settings,
        remember_last_region: true,
        capture_engine: None,
        is_capturing: false,
        render_thread_stop: false,
        last_region: None,
    }
}

/// Carries out each step the controller hands out, until the run is done.
fn drive(
    mut controller: CaptureController,
    mut action: CaptureAction,
    state: &mut MockState,
    platform: &mut MockPlatform,
) -> Result<(), String> {
    let mut last_error = String::new();
    loop {
        let event = match action {
            CaptureAction::Finish => return Ok(()),
            CaptureAction::Abort => return Err(last_error),
            CaptureAction::CleanupBeforeCaptureStart => {
                platform.calls.push("cleanup_before_capture_start");
                CaptureEvent::Completed
            },
            CaptureAction::StopCaptureEngine => {
                if let Some(engine) = state.capture_engine.as_mut() {
                    engine.stop_calls.set(engine.stop_calls.get() + 1);
                }
                CaptureEvent::Completed
            },
            CaptureAction::StopRenderThread => {
                state.render_thread_stop = true;
                CaptureEvent::Completed
            },
            CaptureAction::ClearCaptureWindows => {
                platform.calls.push("clear_capture_windows");
                CaptureEvent::Completed
            },
            CaptureAction::SetCapturing(on) => {
                state.is_capturing = on;
                CaptureEvent::Completed
            },
            CaptureAction::LoadCaptureSettings => CaptureEvent::SettingsLoaded(state.settings),
            CaptureAction::CreateHollowBorder(..) => {
                platform.calls.push("create_and_store_hollow_border");
                CaptureEvent::Completed
            },
            CaptureAction::PrimeBorderInteraction => CaptureEvent::Completed,
            CaptureAction::CreateRecIndicator(..) => {
                platform.calls.push("create_and_store_rec_indicator");
                CaptureEvent::Completed
            },
            CaptureAction::CreateDestinationWindow(..) => {
                platform.calls.push("create_and_store_destination_window");
                CaptureEvent::Completed
            },
            CaptureAction::PostCreateDestinationWindow(..) => {
                platform.calls.push("post_create_destination_window");
                CaptureEvent::Completed
            },
            CaptureAction::CreateSeparationLayer(..) => {
                platform.calls.push("create_separation_layer_for_capture");
                CaptureEvent::Completed
            },
            CaptureAction::CreateCaptureEngine(method) => {
                platform.calls.push("create_capture_engine_for_settings");
                state.capture_engine = Some(MockEngine { method: Some(method), ..MockEngine::default() });
                CaptureEvent::Completed
            },
            CaptureAction::StartCaptureEngine(region, _show_cursor, excluded) => {
                platform.calls.push("build_capture_exclusion_list");
                platform.exclusions.push(excluded);
                if platform.fail_engine_start > 0 {
                    platform.fail_engine_start -= 1;
                    last_error = "engine start failed".to_string();
                    CaptureEvent::Failed
                } else {
                    if let Some(engine) = state.capture_engine.as_mut() {
                        engine.start_region = Some(region);
                    }
                    CaptureEvent::Completed
                }
            },
            CaptureAction::ConfigurePreviewWindow(..) => {
                platform.calls.push("configure_preview_window_for_capture");
                CaptureEvent::Completed
            },
            CaptureAction::StartClickCapture => {
                platform.calls.push("start_click_capture");
                CaptureEvent::Completed
            },
            CaptureAction::ClearRenderThreadStop => {
                state.render_thread_stop = false;
                CaptureEvent::Completed
            },
            CaptureAction::RegisterBorderCallbacks(_) => {
                platform.calls.push("register_border_callbacks");
                CaptureEvent::Completed
            },
            CaptureAction::SpawnRenderThread => CaptureEvent::Completed,
            CaptureAction::ClearRenderThreadHandle => CaptureEvent::Completed,
            CaptureAction::ReadCaptureRect => {
                platform.calls.push("get_capture_rect");
                CaptureEvent::CaptureRectRead(platform.capture_rect)
            },
            CaptureAction::SaveLastRegion(x, y, w, h) => {
                state.last_region = Some([x, y, w, h]);
                CaptureEvent::Completed
            },
            CaptureAction::CleanupAfterCaptureStop => {
                platform.calls.push("cleanup_after_capture_stop");
                CaptureEvent::Completed
            },
            CaptureAction::CleanupAfterCaptureFailed => {
                platform.calls.push("cleanup_after_capture_failed");
                CaptureEvent::Completed
            },
            CaptureAction::StopClickCapture => {
                platform.calls.push("stop_click_capture");
                CaptureEvent::Completed
            },
            CaptureAction::ClearClicks => {
                platform.calls.push("clear_clicks");
                CaptureEvent::Completed
            },
        };
        action = controller.advance(event);
    }
}

fn start_capture_with_platform(
    x: i32,
    y: i32,
    width: u32,
    height: u32,
    state: &mut MockState,
    platform: &mut MockPlatform,
    options: CaptureStartOptions,
) -> Result<(), String> {
    let (controller, action) = CaptureController::start_capture(Platform::Windows, x, y, width, height, false, options);
    drive(controller, action, state, platform)
}

fn stop_capture_with_platform(state: &mut MockState, platform: &mut MockPlatform) -> Result<(), String> {
    let (controller, action) = CaptureController::stop_capture(state.remember_last_region);
    drive(controller, action, state, platform)
}

fn cleanup_on_capture_failed_with_platform(
    state: &mut MockState,
    platform: &mut MockPlatform,
) -> Result<(), String> {
    let (controller, action) = CaptureController::cleanup_on_capture_failed();
    drive(controller, action, state, platform)
}

fn call_index(calls: &[&'static str], name: &str) -> Option<usize> {
    calls.iter().position(|entry| *entry == name)
}

#[test]
fn start_capture_uses_platform_services() {
    let mut settings = default_settings();
    settings.capture_clicks = true;
    settings.border_width = 2;

    let mut state = build_test_state(settings);
    state.remember_last_region = false;
    let mut platform = MockPlatform::default();

    let options = CaptureStartOptions { spawn_render_thread: false, from_shortcut: false };

    let result = start_capture_with_platform(10, 20, 200, 100, &mut state, &mut platform, options);

    assert!(result.is_ok());

    let calls = platform.calls.clone();
    assert!(calls.contains(&"cleanup_before_capture_start"));
    assert!(calls.contains(&"create_and_store_hollow_border"));
    assert!(calls.contains(&"create_capture_engine_for_settings"));
    assert!(calls.contains(&"start_click_capture"));

    let cleanup_index = call_index(&calls, "cleanup_before_capture_start").unwrap();
    let border_index = call_index(&calls, "create_and_store_hollow_border").unwrap();
    let engine_index = call_index(&calls, "create_capture_engine_for_settings").unwrap();
    assert!(cleanup_index < border_index);
    assert!(border_index < engine_index);

    let region = state
        .capture_engine
        .as_ref()
        .and_then(|e| e.start_region)
        .expect("engine start region missing");
    assert_eq!(region.x, 12);
    assert_eq!(region.y, 22);
    assert_eq!(region.width, 196);
    assert_eq!(region.height, 96);
}

#[test]
fn stop_capture_invokes_cleanup_paths() {
    let mut state = build_test_state(default_settings());
    state.remember_last_region = false;
    state.is_capturing = true;

    let mut platform = MockPlatform::default();

    let result = stop_capture_with_platform(&mut state, &mut platform);
    assert!(result.is_ok());

    let calls = platform.calls.clone();
    assert!(calls.contains(&"cleanup_after_capture_stop"));
    assert!(calls.contains(&"stop_click_capture"));
    assert!(calls.contains(&"clear_clicks"));
    assert!(!calls.contains(&"get_capture_rect"));
    assert!(!state.is_capturing);
}

#[test]
fn start_capture_skips_click_capture_when_disabled() {
    let mut settings = default_settings();
    settings.capture_clicks = false;
    settings.border_width = 4;

    let mut state = build_test_state(settings);
    let mut platform = MockPlatform::default();

    let options = CaptureStartOptions { spawn_render_thread: false, from_shortcut: false };

    let result = start_capture_with_platform(0, 0, 300, 200, &mut state, &mut platform, options);

    assert!(result.is_ok());
    let calls = platform.calls.clone();
    assert!(!calls.contains(&"start_click_capture"));
    assert!(state.is_capturing);
    assert!(!state.render_thread_stop);
}

#[test]
fn start_capture_stops_existing_engine() {
    let mut settings = default_settings();
    settings.capture_clicks = true;
    settings.border_width = 1;

    let mut state = build_test_state(settings);
    let existing_stop_calls = Rc::new(Cell::new(0));
    state.capture_engine = Some(MockEngine { stop_calls: Rc::clone(&existing_stop_calls), ..MockEngine::default() });

    let mut platform = MockPlatform::default();
    let options = CaptureStartOptions { spawn_render_thread: false, from_shortcut: false };

    let result = start_capture_with_platform(5, 6, 100, 80, &mut state, &mut platform, options);

    assert!(result.is_ok());
    // start_capture stops the previous engine once before cleanup and once before recreate.
    assert_eq!(existing_stop_calls.get(), 2);
}

#[test]
fn cleanup_on_capture_failed_clears_state() {
    let mut state = build_test_state(default_settings());
    state.is_capturing = true;

    let mut platform = MockPlatform::default();

    let result = cleanup_on_capture_failed_with_platform(&mut state, &mut platform);
    assert!(result.is_ok());

    let calls = platform.calls.clone();
    assert!(calls.contains(&"cleanup_after_capture_failed"));
    assert!(calls.contains(&"clear_clicks"));
    assert!(!state.is_capturing);
}

// ---------------------------------------------------------------------------
// Further runs of the controller
// ---------------------------------------------------------------------------

#[test]
fn start_capture_plan_in_order() {
    let settings = CaptureSettings {
        border_width: 3,
        show_cursor: true,
        capture_method: CaptureMethod::CoreGraphics,
        capture_clicks: false,
        window_filter_mode: WindowFilterMode::IncludeOnly,
    };
    let options = CaptureStartOptions { spawn_render_thread: true, from_shortcut: true };
    let (mut controller, first) = CaptureController::start_capture(Platform::MacOS, 1, 2, 50, 40, true, options);
    let mut actions = vec![first];
    loop {
        let last = *actions.last().unwrap();
        let event = match last {
            CaptureAction::Finish | CaptureAction::Abort => break,
            CaptureAction::LoadCaptureSettings => CaptureEvent::SettingsLoaded(settings),
            _ => CaptureEvent::Completed,
        };
        actions.push(controller.advance(event));
    }
    let region = CaptureRect { x: 4, y: 5, width: 44, height: 34 };
    let expected = vec![
        CaptureAction::CleanupBeforeCaptureStart,
        CaptureAction::StopCaptureEngine,
        CaptureAction::StopRenderThread,
        CaptureAction::ClearCaptureWindows,
        CaptureAction::SetCapturing(false),
        CaptureAction::LoadCaptureSettings,
        CaptureAction::CreateHollowBorder(1, 2, 50, 40),
        CaptureAction::PrimeBorderInteraction,
        CaptureAction::CreateRecIndicator(1, 2, 50),
        CaptureAction::CreateDestinationWindow(1, 2, 50, 40),
        CaptureAction::PostCreateDestinationWindow(1, 2, 50, 40),
        CaptureAction::CreateSeparationLayer(1, 2, 50, 40),
        CaptureAction::StopCaptureEngine,
        CaptureAction::CreateCaptureEngine(CaptureMethod::CoreGraphics),
        CaptureAction::StartCaptureEngine(region, true, CaptureExclusions::PreviewWindow),
        CaptureAction::ConfigurePreviewWindow(1, 2, 50, 40),
        CaptureAction::SetCapturing(true),
        CaptureAction::ClearRenderThreadStop,
        CaptureAction::RegisterBorderCallbacks(3),
        CaptureAction::SpawnRenderThread,
        CaptureAction::Finish,
    ];
    assert_eq!(actions, expected);
}

#[test]
fn wgc_start_failure_falls_back_to_gdi_copy() {
    let settings = CaptureSettings {
        border_width: 4,
        show_cursor: false,
        capture_method: CaptureMethod::Wgc,
        capture_clicks: false,
        window_filter_mode: WindowFilterMode::Unfiltered,
    };
    let mut state = build_test_state(settings);
    let mut platform = MockPlatform { fail_engine_start: 1, ..MockPlatform::default() };
    let options = CaptureStartOptions { spawn_render_thread: false, from_shortcut: false };
    let result = start_capture_with_platform(0, 0, 100, 100, &mut state, &mut platform, options);
    assert!(result.is_ok());
    let engine = state.capture_engine.as_ref().unwrap();
    assert_eq!(engine.method, Some(CaptureMethod::GdiCopy));
    assert_eq!(engine.start_region, Some(CaptureRect { x: 4, y: 4, width: 92, height: 92 }));
    assert_eq!(
        platform.exclusions,
        vec![CaptureExclusions::DefaultPreviewWindow, CaptureExclusions::DefaultPreviewWindow]
    );
}

#[test]
fn second_engine_start_failure_aborts() {
    let settings = CaptureSettings {
        border_width: 4,
        show_cursor: false,
        capture_method: CaptureMethod::Wgc,
        capture_clicks: false,
        window_filter_mode: WindowFilterMode::Unfiltered,
    };
    let mut state = build_test_state(settings);
    let mut platform = MockPlatform { fail_engine_start: 2, ..MockPlatform::default() };
    let options = CaptureStartOptions { spawn_render_thread: false, from_shortcut: false };
    let result = start_capture_with_platform(0, 0, 100, 100, &mut state, &mut platform, options);
    assert_eq!(result, Err("engine start failed".to_string()));
    assert!(!state.is_capturing);
}

#[test]
fn non_wgc_start_failure_aborts_at_once() {
    let mut state = build_test_state(default_settings());
    let mut platform = MockPlatform { fail_engine_start: 1, ..MockPlatform::default() };
    let options = CaptureStartOptions { spawn_render_thread: false, from_shortcut: false };
    let result = start_capture_with_platform(0, 0, 100, 100, &mut state, &mut platform, options);
    assert!(result.is_err());
    let creations = platform
        .calls
        .iter()
        .filter(|c| **c == "create_capture_engine_for_settings")
        .count();
    assert_eq!(creations, 1);
}

#[test]
fn failed_cleanup_aborts_before_the_border() {
    let (mut controller, first) =
        CaptureController::start_capture(Platform::Linux, 0, 0, 10, 10, false, CaptureStartOptions::default());
    assert_eq!(first, CaptureAction::CleanupBeforeCaptureStart);
    assert_eq!(controller.advance(CaptureEvent::Failed), CaptureAction::Abort);
}

#[test]
fn stop_capture_saves_the_border_rectangle() {
    let mut state = build_test_state(default_settings());
    state.remember_last_region = true;
    state.is_capturing = true;
    let mut platform = MockPlatform { capture_rect: Some((5, 6, 70, 80)), ..MockPlatform::default() };
    let result = stop_capture_with_platform(&mut state, &mut platform);
    assert!(result.is_ok());
    assert_eq!(state.last_region, Some([5, 6, 70, 80]));
    assert_eq!(platform.calls[0], "get_capture_rect");
    assert!(!state.is_capturing);
}

#[test]
fn stop_capture_without_border_saves_nothing() {
    let mut state = build_test_state(default_settings());
    let mut platform = MockPlatform::default();
    let result = stop_capture_with_platform(&mut state, &mut platform);
    assert!(result.is_ok());
    assert_eq!(state.last_region, None);
    assert!(platform.calls.contains(&"cleanup_after_capture_stop"));
}

#[test]
fn capture_region_is_inside_the_border() {
    assert_eq!(capture_region(10, 20, 200, 100, 2), CaptureRect { x: 12, y: 22, width: 196, height: 96 });
    assert_eq!(capture_region(0, 0, 5, 5, 4), CaptureRect { x: 4, y: 4, width: 1, height: 1 });
}

#[test]
fn click_capture_failure_does_not_stop_the_start() {
    let (mut controller, mut action) =
        CaptureController::start_capture(Platform::Linux, 0, 0, 100, 100, false, CaptureStartOptions::default());
    let settings = default_settings();
    loop {
        let event = match action {
            CaptureAction::Finish | CaptureAction::Abort => break,
            CaptureAction::LoadCaptureSettings => CaptureEvent::SettingsLoaded(settings),
            CaptureAction::StartClickCapture => CaptureEvent::Failed,
            _ => CaptureEvent::Completed,
        };
        action = controller.advance(event);
    }
    assert_eq!(action, CaptureAction::Finish);
}
