use rustframe::platform::Platform;
use rustframe::settings::{
    default_capture_clicks, default_click_color, default_click_dissolve_ms, default_click_radius,
    default_gpu_acceleration, default_log_level, default_log_retention_days, default_log_to_file,
    default_shortcut_start_capture, default_shortcut_stop_capture, default_shortcut_zoom_in,
    default_shortcut_zoom_out, settings_defaults, should_allow_screen_capture, CaptureMethod,
    PreviewMode,
    ShortcutSettings, DEFAULT_BORDER_WIDTH, DEFAULT_TARGET_FPS,
};
use rustframe::shortcuts::{shortcut_registrations, ShortcutAction, SHORTCUTS_ENABLED};

#[test]
fn default_shortcuts_are_set() {
    let shortcuts = ShortcutSettings::default();
    assert!(!shortcuts.start_capture.is_empty());
    assert!(!shortcuts.stop_capture.is_empty());
    assert!(!shortcuts.zoom_in.is_empty());
    assert!(!shortcuts.zoom_out.is_empty());
}

#[test]
fn default_values() {
    assert!(default_capture_clicks());
    assert_eq!(default_click_color(), [255, 255, 0, 180]);
    assert_eq!(default_click_radius(), 20);
    assert_eq!(default_click_dissolve_ms(), 300);
    assert_eq!(default_log_level(), "Error");
    assert!(default_log_to_file());
    assert_eq!(default_log_retention_days(), 30);
    assert!(default_gpu_acceleration());
    assert_eq!(DEFAULT_BORDER_WIDTH, 4);
    assert_eq!(DEFAULT_TARGET_FPS, 60);
}

#[test]
fn default_shortcut_accelerators() {
    assert_eq!(default_shortcut_start_capture(), "CmdOrCtrl+Shift+R");
    assert_eq!(default_shortcut_stop_capture(), "CmdOrCtrl+Shift+S");
    assert_eq!(default_shortcut_zoom_in(), "CmdOrCtrl+Shift+Equal");
    assert_eq!(default_shortcut_zoom_out(), "CmdOrCtrl+Shift+Minus");
}

#[test]
fn defaults_per_platform() {
    assert_eq!(CaptureMethod::default_for(Platform::Windows), CaptureMethod::Wgc);
    assert_eq!(CaptureMethod::default_for(Platform::MacOS), CaptureMethod::CoreGraphics);
    assert_eq!(CaptureMethod::default_for(Platform::Linux), CaptureMethod::CoreGraphics);
    assert_eq!(PreviewMode::default_for(Platform::Windows), PreviewMode::WinApiGdi);
    assert_eq!(PreviewMode::default_for(Platform::Linux), PreviewMode::Native);
}

#[test]
fn capture_method_names() {
    assert_eq!(CaptureMethod::Wgc.to_string(), "WGC");
    assert_eq!(CaptureMethod::GdiCopy.to_string(), "GdiCopy");
    assert_eq!(CaptureMethod::CoreGraphics.to_string(), "CoreGraphics");
}

#[test]
fn screen_capture_permission_from_environment() {
    assert!(should_allow_screen_capture(Some("1"), None, false));
    assert!(should_allow_screen_capture(Some("TRUE"), Some(false), false));
    assert!(should_allow_screen_capture(Some("Yes"), None, false));
    assert!(!should_allow_screen_capture(Some("0"), Some(true), false));
    assert!(!should_allow_screen_capture(Some(""), Some(true), false));
    assert!(!should_allow_screen_capture(Some("0"), None, true));
}

#[test]
fn screen_capture_permission_from_settings() {
    assert!(should_allow_screen_capture(None, Some(true), false));
    assert!(!should_allow_screen_capture(None, Some(false), false));
    assert!(!should_allow_screen_capture(None, None, false));
}

#[test]
fn screen_capture_permission_in_development_builds() {
    assert!(should_allow_screen_capture(None, None, true));
    assert!(should_allow_screen_capture(None, Some(false), true));
    assert!(should_allow_screen_capture(None, Some(true), true));
}

#[test]
fn shortcut_actions_have_names() {
    assert_eq!(ShortcutAction::StartCapture.as_str(), "start_capture");
    assert_eq!(ShortcutAction::StopCapture.as_str(), "stop_capture");
    assert_eq!(ShortcutAction::ZoomIn.as_str(), "zoom_in");
    assert_eq!(ShortcutAction::ZoomOut.as_str(), "zoom_out");
    assert!(!SHORTCUTS_ENABLED);
}

#[test]
fn blank_shortcuts_are_not_registered() {
    let shortcuts = ShortcutSettings {
        start_capture: "CmdOrCtrl+Shift+R".to_string(),
        stop_capture: "   ".to_string(),
        zoom_in: String::new(),
        zoom_out: "CmdOrCtrl+Shift+Minus".to_string(),
    };
    let regs = shortcut_registrations(&shortcuts);
    assert_eq!(regs.len(), 2);
    assert_eq!(regs[0].0, "CmdOrCtrl+Shift+R");
    assert_eq!(regs[0].1, ShortcutAction::StartCapture);
    assert_eq!(regs[1].0, "CmdOrCtrl+Shift+Minus");
    assert_eq!(regs[1].1, ShortcutAction::ZoomOut);
}

#[test]
fn default_shadow_cursor_disabled() {
    for platform in [Platform::Windows, Platform::MacOS, Platform::Linux, Platform::Other] {
        let settings = settings_defaults(platform);
        assert!(!settings.show_cursor);
    }
}

#[test]
fn capture_preview_window_matches_platform() {
    for platform in [Platform::Windows, Platform::MacOS, Platform::Linux, Platform::Other] {
        let settings = settings_defaults(platform);
        assert_eq!(settings.capture_preview_window, platform == Platform::MacOS);
    }
}

#[test]
fn documented_setting_defaults() {
    let d = settings_defaults(Platform::Windows);
    assert!(d.show_border);
    assert_eq!(d.border_color, [255, 0, 0, 255]);
    assert_eq!(d.border_width, 4);
    assert_eq!(d.target_fps, 60);
    assert!(d.capture_clicks);
    assert_eq!(d.click_highlight_color, [255, 255, 0, 180]);
    assert_eq!(d.click_dissolve_ms, 300);
    assert_eq!(d.click_highlight_radius, 20);
    assert!(d.gpu_acceleration);
    assert_eq!(d.capture_method, CaptureMethod::Wgc);
    assert_eq!(d.preview_mode, PreviewMode::WinApiGdi);
    assert!(d.remember_last_region);
    assert_eq!(d.last_region, Some([100, 100, 600, 400]));
    assert!(d.show_rec_indicator);
    assert_eq!(d.rec_indicator_size, "medium");
    assert_eq!(d.log_level, "Error");
    assert!(d.log_to_file);
    assert_eq!(d.log_retention_days, 30);
    assert_eq!(d.shortcuts.start_capture, "CmdOrCtrl+Shift+R");
    assert_eq!(d.debug_allow_screen_capture, None);
    let m = settings_defaults(Platform::MacOS);
    assert_eq!(m.capture_method, CaptureMethod::CoreGraphics);
    assert_eq!(m.preview_mode, PreviewMode::Native);
}
