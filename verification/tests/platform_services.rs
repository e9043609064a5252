use rustframe::capture_platform::{RealCapturePlatform, WindowSettings};
use rustframe::hollow_border::HollowBorder;
use rustframe::platform::Platform;
use rustframe::services::{
    capture_exclusions, create_hollow_border_for_settings, create_rec_indicator_for_settings,
    destination_window_config, hidden_from_taskbar_style, preview_window_identifier,
    CaptureExclusions, CaptureWindows, DestinationWindow, WinApiDestinationOverrides,
    WindowFilterMode,
};
use rustframe::settings::PreviewMode;
use rustframe::system::{
    folder_opener, frame_duration_ms, frame_sleep_ns, logging_settings_changed,
    min_frame_duration_ns, refresh_rate_from_display_settings,
};

fn overrides() -> WinApiDestinationOverrides {
    WinApiDestinationOverrides {
        alpha: Some(200),
        topmost: Some(true),
        click_through: None,
        toolwindow: Some(false),
        layered: None,
        appwindow: Some(true),
        noactivate: None,
        overlapped: None,
    }
}

fn window_settings(preview_mode: PreviewMode) -> WindowSettings {
    WindowSettings {
        border_width: 4,
        border_color: [255, 0, 0, 255],
        show_border: true,
        show_rec_indicator: true,
        rec_indicator_size: "small".to_string(),
        preview_mode,
        capture_preview_window: true,
        winapi_overrides: overrides(),
    }
}

#[test]
fn exclusions_per_platform() {
    assert_eq!(
        capture_exclusions(Platform::Windows, WindowFilterMode::ExcludeList),
        CaptureExclusions::DefaultPreviewWindow
    );
    assert_eq!(
        capture_exclusions(Platform::MacOS, WindowFilterMode::ExcludeList),
        CaptureExclusions::FilterExclusions
    );
    assert_eq!(
        capture_exclusions(Platform::MacOS, WindowFilterMode::Unfiltered),
        CaptureExclusions::PreviewWindow
    );
    assert_eq!(
        capture_exclusions(Platform::MacOS, WindowFilterMode::IncludeOnly),
        CaptureExclusions::PreviewWindow
    );
    assert_eq!(
        preview_window_identifier(42),
        ("com.rustframe.app".to_string(), "RustFrame Preview 42".to_string())
    );
}

#[test]
fn windows_from_settings() {
    let border = create_hollow_border_for_settings(1, 2, 100, 50, 3, [0, 0, 255, 255], false).unwrap();
    assert_eq!(border.get_rect(), (1, 2, 100, 50));
    assert_eq!(border.get_inner_rect(), (4, 5, 94, 44));
    assert!(border.inner_rect_computable());
    assert!(!HollowBorder::new(i32::MAX, 0, 10, 10, 1, 0).unwrap().inner_rect_computable());
    let rec = create_rec_indicator_for_settings(true, "large", 1, 2, 100, 3).unwrap();
    assert_eq!((rec.size.as_str(), rec.x, rec.y, rec.width, rec.border_width), ("large", 1, 2, 100, 3));
    assert!(create_rec_indicator_for_settings(false, "large", 1, 2, 100, 3).is_none());
}

#[test]
fn destination_configs() {
    let c = destination_window_config(Platform::Windows, PreviewMode::WinApiGdi, false, overrides()).unwrap();
    assert_eq!(c.alpha, Some(200));
    assert_eq!(c.appwindow, Some(true));
    assert_eq!(c.macos_sharing_type, None);
    assert_eq!(
        destination_window_config(Platform::Windows, PreviewMode::TauriCanvas, false, overrides()),
        Err("Tauri Canvas mode not yet implemented".to_string())
    );
    let m = destination_window_config(Platform::MacOS, PreviewMode::Native, true, overrides()).unwrap();
    assert_eq!(m.alpha, Some(255));
    assert_eq!(m.topmost, Some(false));
    assert_eq!(m.click_through, Some(true));
    assert_eq!(m.macos_sharing_type, Some(1));
    assert_eq!(m.toolwindow, None);
    let hidden = destination_window_config(Platform::MacOS, PreviewMode::Native, false, overrides()).unwrap();
    assert_eq!(hidden.macos_sharing_type, Some(0));
}

#[test]
fn taskbar_style_bits() {
    assert_eq!(hidden_from_taskbar_style(0), None);
    assert_eq!(hidden_from_taskbar_style(0x40000 | 0x1), Some(0x80 | 0x1));
    assert_eq!(hidden_from_taskbar_style(0x10000000), Some(0x10000080));
}

#[test]
fn real_platform_runs_window_steps() {
    let platform = RealCapturePlatform { platform: Platform::Windows };
    let settings = window_settings(PreviewMode::WinApiGdi);
    let mut windows = CaptureWindows::new();
    assert!(platform.create_and_store_hollow_border(&mut windows, 10, 20, 200, 100, &settings).is_ok());
    platform.create_and_store_rec_indicator(&mut windows, 10, 20, 200, &settings);
    assert!(platform.create_and_store_destination_window(&mut windows, 10, 20, 200, 100, &settings).is_ok());
    assert!(platform.post_create_destination_window(&windows, 10, 20, 200, 100));
    platform.create_separation_layer_for_capture(&mut windows, 10, 20, 200, 100);
    platform.configure_preview_window_for_capture(&mut windows, 10, 20, 200, 100);
    assert_eq!(
        windows.destination_window,
        Some(DestinationWindow { x: 10, y: 20, width: 200, height: 100, masking: false, below_separation: true })
    );
    assert_eq!(windows.cursor_filter, Some(((10, 20, 200, 100), (10, 20, 200, 100))));
    assert_eq!(platform.get_capture_rect(&windows), Some((10, 20, 200, 100)));
    assert_eq!(platform.get_capture_inner_rect(&windows), Some((14, 24, 192, 92)));
    assert!(windows.separation_layer.is_some());
    platform.cleanup_after_capture_stop(&mut windows);
    assert_eq!(windows.cursor_filter, None);
    assert!(windows.hollow_border.is_none());
    assert!(windows.separation_layer.is_none());
    assert!(windows.rec_indicator.is_none());

    let canvas = window_settings(PreviewMode::TauriCanvas);
    let mut windows = CaptureWindows::new();
    assert_eq!(
        platform.create_and_store_destination_window(&mut windows, 0, 0, 10, 10, &canvas),
        Err("Tauri Canvas mode not yet implemented".to_string())
    );
    assert!(windows.destination_window.is_none());
}

#[test]
fn system_helpers() {
    assert_eq!(folder_opener(Platform::Windows), Some("explorer"));
    assert_eq!(folder_opener(Platform::MacOS), Some("open"));
    assert_eq!(folder_opener(Platform::Linux), Some("xdg-open"));
    assert_eq!(folder_opener(Platform::Other), None);
    assert_eq!(refresh_rate_from_display_settings(Some(144)), 144);
    assert_eq!(refresh_rate_from_display_settings(Some(1)), 30);
    assert_eq!(refresh_rate_from_display_settings(None), 60);
    assert!(logging_settings_changed("Error", true, "Debug", true));
    assert!(logging_settings_changed("Error", true, "Error", false));
    assert!(!logging_settings_changed("Error", true, "Error", true));
    assert_eq!(frame_duration_ms(60), 16);
    assert_eq!(min_frame_duration_ns(16, true), 5_000_000);
    assert_eq!(min_frame_duration_ns(16, false), 16_000_000);
    assert_eq!(frame_sleep_ns(4_000_000, 16_000_000), Some(12_000_000));
    assert_eq!(frame_sleep_ns(20_000_000, 16_000_000), None);
}
