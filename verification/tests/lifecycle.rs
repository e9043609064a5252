use rustframe::display::{
    is_initialized, DisplayStatus,
    cg_event_coord_mode, get_monitors, win32_monitor_entry, CGEventCoordMode, ListedMonitor,
};
use rustframe::hollow_border::HollowBorder;
use rustframe::json::JsonValue;
use rustframe::lifecycle::{
    handle_window_event, load_active_profile, CleanupState, CleanupStep, WindowEvent,
};
use rustframe::services::{store_hollow_border, CaptureWindows};

#[test]
fn cleanup_runs_once() {
    let mut state = CleanupState::new();
    let first = state.perform_cleanup();
    assert_eq!(
        first,
        vec![
            CleanupStep::StopClickCapture,
            CleanupStep::DropCaptureWindows,
            CleanupStep::ClearClicks,
            CleanupStep::ReleaseSingleInstanceLock
        ]
    );
    assert!(state.perform_cleanup().is_empty());
    state.reset_cleanup_flag();
    assert_eq!(state.perform_cleanup().len(), 4);
}

#[test]
fn closing_while_capturing_is_prevented() {
    let mut state = CleanupState::new();
    let mut windows = CaptureWindows::new();
    store_hollow_border(&mut windows, HollowBorder::new(0, 0, 10, 10, 1, 0).unwrap());
    let outcome = handle_window_event(&mut state, &mut windows, WindowEvent::CloseRequested, true);
    assert!(outcome.prevent_close);
    assert!(outcome.cleanup.is_empty());
    assert!(windows.hollow_border.is_some());

    let outcome = handle_window_event(&mut state, &mut windows, WindowEvent::CloseRequested, false);
    assert!(!outcome.prevent_close);
    assert_eq!(outcome.cleanup.len(), 4);
    assert!(windows.hollow_border.is_none());

    let outcome = handle_window_event(&mut state, &mut windows, WindowEvent::Destroyed, false);
    assert!(outcome.cleanup.is_empty());
    let outcome = handle_window_event(&mut state, &mut windows, WindowEvent::Other, false);
    assert!(!outcome.prevent_close && outcome.cleanup.is_empty());
}

#[test]
fn active_profile_at_startup() {
    let doc = JsonValue::Object(vec![("active_profile".to_string(), JsonValue::String("zoom".to_string()))]);
    assert_eq!(load_active_profile(Some(&doc)), Some("zoom".to_string()));
    let not_text = JsonValue::Object(vec![("active_profile".to_string(), JsonValue::Bool(true))]);
    assert_eq!(load_active_profile(Some(&not_text)), None);
    assert_eq!(load_active_profile(None), None);
}

#[test]
fn monitors_from_the_toolkit() {
    let listed = vec![
        ListedMonitor { name: Some("Built-in".to_string()), x: 0, y: 0, width: 1440, height: 900 },
        ListedMonitor { name: None, x: 1440, y: 0, width: 1920, height: 1080 },
    ];
    let monitors = get_monitors(listed);
    assert_eq!(monitors.len(), 2);
    assert_eq!(monitors[0].name, "Built-in");
    assert!(monitors[0].is_primary);
    assert_eq!(monitors[1].id, 1);
    assert_eq!(monitors[1].name, "Display 2");
    assert!(!monitors[1].is_primary);
    assert_eq!(monitors[1].refresh_rate, 60);
}

#[test]
fn monitors_from_windows() {
    let m = win32_monitor_entry(0, "\\\\.\\DISPLAY1\0\0\0", -1920, 0, 0, 1080, 1, Some(144));
    assert_eq!(m.name, "\\\\.\\DISPLAY1");
    assert_eq!((m.x, m.y, m.width, m.height), (-1920, 0, 1920, 1080));
    assert!(m.is_primary);
    assert_eq!(m.refresh_rate, 144);
    let other = win32_monitor_entry(1, "B", 0, 0, 800, 600, 0, None);
    assert!(!other.is_primary);
    assert_eq!(other.refresh_rate, 60);
}

#[test]
fn coordinate_mode_is_stored_once_detected() {
    assert_eq!(CGEventCoordMode::from_u8(3), Some(CGEventCoordMode::BottomLeftPoints));
    assert_eq!(CGEventCoordMode::from_u8(0), None);
    assert_eq!(CGEventCoordMode::BottomLeftPixels.as_u8(), 4);

    let mut stored = 0u8;
    let mode = cg_event_coord_mode(&mut stored, || CGEventCoordMode::TopLeftPixels);
    assert_eq!(mode, CGEventCoordMode::TopLeftPixels);
    assert_eq!(stored, 2);
    let again = cg_event_coord_mode(&mut stored, || CGEventCoordMode::BottomLeftPoints);
    assert_eq!(again, CGEventCoordMode::TopLeftPixels);
}

#[test]
fn display_information_initialised_only_when_flag_read_true() {
    assert!(is_initialized(Some(true)));
    assert!(!is_initialized(Some(false)));
    assert!(!is_initialized(None));
}

#[test]
fn display_initialised_once_an_attempt_succeeds() {
    let mut d = DisplayStatus::new();
    assert!(!d.initialized);
    d.record_initialization(None);
    assert!(!d.initialized);
    d.record_initialization(Some((1920, 1080)));
    assert_eq!(d, DisplayStatus { width_pixels: 1920, height_pixels: 1080, initialized: true });
    d.record_initialization(None);
    assert!(d.initialized);
}
