use rustframe::capture::capture_region_fits;
use rustframe::hollow_border::inner_rect_fits_in_i32;
use rustframe::capture::CaptureRect;
use rustframe::hollow_border::HollowBorder;
use rustframe::interaction::{
    border_interaction_complete, border_live_move, region_center,
    update_capture_engine_after_border_interaction, update_capture_engine_during_live_move,
    EngineUpdate, LiveEngineStep,
};
use rustframe::platform::Platform;
use rustframe::preview::{
    get_border_rect, get_preview_border_rect, hide_preview_border, show_preview_border,
    update_preview_border, update_preview_border_style,
};
use rustframe::services::{
    cleanup_after_capture_failed, cleanup_after_capture_stop, clear_capture_windows,
    configure_preview_window_for_capture, create_separation_layer_for_capture,
    ensure_border_hwnd_cleared, get_capture_inner_rect, get_capture_rect,
    post_create_destination_window, set_capture_border_mode_if_active, store_destination_window,
    store_hollow_border, store_rec_indicator, sync_preview_window_to_border,
    update_capture_border_for_preview, update_rec_indicator_position, CaptureWindows,
    clear_cursor_filtering_after_capture,
    DestinationWindow, RecIndicator, SeparationLayer, SEPARATION_LAYER_COLOR,
};

fn session(platform: Platform) -> CaptureWindows {
    let mut w = CaptureWindows::new();
    store_hollow_border(&mut w, HollowBorder::new(10, 20, 200, 100, 2, 0).unwrap());
    store_destination_window(
        &mut w,
        DestinationWindow { x: 10, y: 20, width: 200, height: 100, masking: true, below_separation: false },
    );
    store_rec_indicator(
        &mut w,
        RecIndicator { size: "medium".to_string(), x: 10, y: 20, width: 200, border_width: 2 },
    );
    create_separation_layer_for_capture(platform, &mut w, 10, 20, 200, 100);
    w
}

#[test]
fn capture_rects_of_the_border() {
    let w = session(Platform::Linux);
    assert_eq!(get_capture_rect(&w), Some((10, 20, 200, 100)));
    assert_eq!(get_capture_inner_rect(&w), Some((12, 22, 196, 96)));
    assert_eq!(get_border_rect(&w), Some([12, 22, 196, 96]));
    let empty = CaptureWindows::new();
    assert_eq!(get_capture_rect(&empty), None);
    assert_eq!(get_border_rect(&empty), None);
}

#[test]
fn separation_layer_only_on_windows() {
    let w = session(Platform::Windows);
    assert_eq!(
        w.separation_layer,
        Some(SeparationLayer { x: 10, y: 20, width: 200, height: 100, color: SEPARATION_LAYER_COLOR })
    );
    assert_eq!(session(Platform::MacOS).separation_layer, None);
    let mut no_border = CaptureWindows::new();
    create_separation_layer_for_capture(Platform::Windows, &mut no_border, 0, 0, 10, 10);
    assert_eq!(no_border.separation_layer, None);
}

#[test]
fn clearing_windows() {
    let mut w = session(Platform::Windows);
    clear_capture_windows(&mut w);
    assert!(w.hollow_border.is_none() && w.destination_window.is_none() && w.rec_indicator.is_none());
    assert!(w.separation_layer.is_some());

    let mut w = session(Platform::Windows);
    cleanup_after_capture_stop(Platform::Windows, &mut w);
    assert!(w.hollow_border.is_none() && w.separation_layer.is_none() && w.rec_indicator.is_none());

    let mut w = session(Platform::Windows);
    cleanup_after_capture_failed(Platform::Windows, &mut w);
    assert!(w.destination_window.is_none() && w.separation_layer.is_none());
}

#[test]
fn preview_window_placement() {
    let mut w = session(Platform::Windows);
    configure_preview_window_for_capture(Platform::Windows, &mut w, 1, 2, 30, 40);
    assert_eq!(
        w.destination_window,
        Some(DestinationWindow { x: 1, y: 2, width: 30, height: 40, masking: false, below_separation: true })
    );
    assert_eq!(w.cursor_filter, Some(((1, 2, 30, 40), (1, 2, 30, 40))));
    clear_cursor_filtering_after_capture(Platform::Windows, &mut w);
    assert_eq!(w.cursor_filter, None);

    let mut w = session(Platform::Linux);
    configure_preview_window_for_capture(Platform::Windows, &mut w, 1, 2, 30, 40);
    assert!(!w.destination_window.unwrap().below_separation);
    assert_eq!(w.cursor_filter, Some(((1, 2, 30, 40), (1, 2, 30, 40))));

    let mut w = session(Platform::Linux);
    configure_preview_window_for_capture(Platform::Linux, &mut w, 1, 2, 30, 40);
    assert_eq!(w.destination_window.unwrap().x, 10);

    let mut w = session(Platform::MacOS);
    sync_preview_window_to_border(Platform::MacOS, &mut w, 5, 6, 70, 80);
    assert_eq!(
        w.destination_window,
        Some(DestinationWindow { x: 5, y: 6, width: 70, height: 80, masking: true, below_separation: false })
    );
    assert_eq!(w.cursor_filter, None);
}

#[test]
fn rec_indicator_follows() {
    let mut w = session(Platform::Linux);
    update_rec_indicator_position(&mut w, 1, 2, 3, 4);
    let rec = w.rec_indicator.unwrap();
    assert_eq!((rec.x, rec.y, rec.width, rec.border_width), (1, 2, 3, 4));
    assert_eq!(rec.size, "medium");
}

#[test]
fn capture_border_as_preview() {
    let mut w = session(Platform::Linux);
    assert!(update_capture_border_for_preview(Some(&mut w.hollow_border), 1, 2, 30, 40, 5, 0).is_ok());
    assert_eq!(get_capture_rect(&w), Some((1, 2, 30, 40)));
    assert_eq!(set_capture_border_mode_if_active(Some(&mut w.hollow_border)), Ok(true));
    let mut empty = CaptureWindows::new();
    assert_eq!(
        update_capture_border_for_preview(Some(&mut empty.hollow_border), 1, 2, 30, 40, 5, 0),
        Err("Capture is active but no border found".to_string())
    );
    assert_eq!(set_capture_border_mode_if_active(Some(&mut empty.hollow_border)), Ok(false));
    assert_eq!(
        update_capture_border_for_preview(None, 1, 2, 30, 40, 5, 0),
        Err("Border is locked".to_string())
    );
    assert_eq!(set_capture_border_mode_if_active(None), Err("Border is locked".to_string()));
}

#[test]
fn preview_border_commands() {
    let mut w = CaptureWindows::new();
    assert_eq!(get_preview_border_rect(&w), Ok(None));
    assert!(show_preview_border(Platform::Linux, Some(&mut w), false, 1, 2, 30, 40, 3, 0).is_ok());
    assert_eq!(get_preview_border_rect(&w), Ok(Some((1, 2, 30, 40))));
    assert!(update_preview_border(&mut w, 5, 6, 70, 80).is_ok());
    assert!(update_preview_border_style(&mut w, 9, 0).is_ok());
    assert_eq!(get_preview_border_rect(&w), Ok(Some((5, 6, 70, 80))));
    assert_eq!(w.preview_border.as_ref().unwrap().get_inner_rect(), (14, 15, 52, 62));
    assert!(hide_preview_border(Some(&mut w), false).is_ok());
    assert_eq!(get_preview_border_rect(&w), Ok(None));
}

#[test]
fn preview_while_capturing_uses_the_capture_border() {
    let mut w = session(Platform::Linux);
    assert!(show_preview_border(Platform::Linux, Some(&mut w), true, 0, 0, 50, 50, 1, 0).is_ok());
    assert!(w.preview_border.is_none());
    assert_eq!(get_capture_rect(&w), Some((0, 0, 50, 50)));
    assert!(hide_preview_border(Some(&mut w), true).is_ok());
    assert!(w.hollow_border.is_some());
    let mut empty = CaptureWindows::new();
    assert!(show_preview_border(Platform::Linux, Some(&mut empty), true, 0, 0, 50, 50, 1, 0).is_err());
    assert_eq!(
        show_preview_border(Platform::Linux, None, true, 0, 0, 50, 50, 1, 0),
        Err("Border is locked".to_string())
    );
    assert_eq!(hide_preview_border(None, true), Err("Border is locked".to_string()));
}

#[test]
fn old_border_window_must_be_gone() {
    assert_eq!(
        ensure_border_hwnd_cleared(Platform::Windows, true),
        Err("Failed to clean up previous border window".to_string())
    );
    assert_eq!(ensure_border_hwnd_cleared(Platform::Windows, false), Ok(()));
    assert_eq!(ensure_border_hwnd_cleared(Platform::Linux, true), Ok(()));
    assert!(post_create_destination_window(&session(Platform::Linux), 0, 0, 1, 1));
    assert!(!post_create_destination_window(&CaptureWindows::new(), 0, 0, 1, 1));
}

#[test]
fn engine_updates_after_a_drag() {
    let region = CaptureRect { x: 12, y: 22, width: 196, height: 96 };
    assert_eq!(
        update_capture_engine_after_border_interaction(Platform::Linux, 10, 20, 200, 100, 2, true, None, None),
        Some(EngineUpdate::UpdateRegion(region))
    );
    assert_eq!(
        update_capture_engine_after_border_interaction(Platform::Linux, 10, 20, 200, 100, 2, false, None, None),
        None
    );
    assert_eq!(
        update_capture_engine_after_border_interaction(
            Platform::Windows, 10, 20, 200, 100, 2, true, Some((0, 0)), Some((1920, 0))
        ),
        Some(EngineUpdate::Restart(region))
    );
    assert_eq!(
        update_capture_engine_after_border_interaction(Platform::Windows, 10, 20, 200, 100, 2, true, Some((0, 0)), None),
        None
    );
    assert_eq!(
        update_capture_engine_after_border_interaction(
            Platform::MacOS, 10, 20, 200, 100, 2, true, Some((0, 0)), Some((0, 0))
        ),
        Some(EngineUpdate::UpdateRegion(region))
    );
    assert_eq!(region_center(10, 20, 200, 100), (110, 70));
    assert_eq!(region_center(0, 0, -3, -3), (-1, -1));
}

#[test]
fn engine_region_while_dragging() {
    assert_eq!(
        update_capture_engine_during_live_move(10, 20, 200, 100, 2, true),
        vec![
            LiveEngineStep::RefreshScaleFactor,
            LiveEngineStep::UpdateRegion(CaptureRect { x: 12, y: 22, width: 196, height: 96 }),
        ]
    );
    assert_eq!(update_capture_engine_during_live_move(10, 20, 200, 100, 2, false), vec![]);
    let mut w = session(Platform::Windows);
    let steps = border_live_move(Platform::Windows, &mut w, 10, 20, 200, 100, 2, true);
    assert_eq!(
        steps,
        vec![
            LiveEngineStep::RefreshScaleFactor,
            LiveEngineStep::UpdateRegion(CaptureRect { x: 12, y: 22, width: 196, height: 96 }),
        ]
    );
    assert_eq!(w.cursor_filter, Some(((10, 20, 200, 100), (10, 20, 200, 100))));
}

#[test]
fn windows_follow_a_finished_drag() {
    let mut w = session(Platform::Windows);
    let update = border_interaction_complete(Platform::Windows, &mut w, 0, 0, 100, 50, 2, true, None, Some((0, 0)));
    assert_eq!(update, Some(EngineUpdate::UpdateRegion(CaptureRect { x: 2, y: 2, width: 96, height: 46 })));
    assert_eq!(
        w.destination_window,
        Some(DestinationWindow { x: 0, y: 0, width: 96, height: 46, masking: true, below_separation: true })
    );
    assert_eq!(w.cursor_filter, Some(((0, 0, 96, 46), (0, 0, 100, 50))));
    assert_eq!(w.separation_layer.unwrap().width, 100);
    assert_eq!(w.rec_indicator.as_ref().unwrap().width, 100);

    let mut w = session(Platform::MacOS);
    let steps = border_live_move(Platform::MacOS, &mut w, 3, 4, 60, 50, 2, true);
    assert_eq!(steps[1], LiveEngineStep::UpdateRegion(CaptureRect { x: 5, y: 6, width: 56, height: 46 }));
    assert_eq!(w.cursor_filter, None);
    assert_eq!(w.destination_window.unwrap().width, 60);
}

#[test]
fn overflow_checks_for_the_inner_region() {
    assert!(capture_region_fits(0, 0, 100, 100, 4));
    assert!(!capture_region_fits(i32::MAX, 0, 10, 10, 1));
    assert!(!capture_region_fits(0, 0, 10, 10, 0x8000_0000));
    assert!(inner_rect_fits_in_i32(0, 0, 10, 10, 2));
    assert!(!inner_rect_fits_in_i32(0, 0, 10, 10, i32::MAX));
    assert!(!inner_rect_fits_in_i32(0, i32::MAX, 10, 10, 1));
}
