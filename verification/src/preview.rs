use vstd::prelude::*;

use crate::hollow_border::{inner_rect_fits, inner_rect_of};
use crate::platform::Platform;
use crate::text::string_of;
use crate::services::{
    create_preview_border, get_capture_inner_rect, moved_layer, placed_opt,
    set_capture_border_mode_if_active, sync_preview_window_to_border,
    update_border_for_preview, update_capture_border_for_preview, CaptureWindows,
};

verus! {

/// Closes the border shown while the settings are edited.
pub fn clear_preview_border(windows: &mut CaptureWindows)
    ensures
        final(windows).preview_border is None,
        final(windows).hollow_border == old(windows).hollow_border,
        final(windows).destination_window == old(windows).destination_window,
        final(windows).rec_indicator == old(windows).rec_indicator,
        final(windows).separation_layer == old(windows).separation_layer,
        final(windows).cursor_filter == old(windows).cursor_filter,
{
    windows.preview_border = None;
}

/// Shows the border at `(x, y, width, height)` while the settings are edited. While a
/// capture runs, the capture border itself takes the preview's place: an error where the
/// windows are held elsewhere (`windows` is what locking them gave) or the border is
/// missing. Otherwise the preview border is moved and restyled, or made where there is
/// none, and the preview window follows it (see `sync_preview_window_to_border`); the
/// windows are then waited for, so they are at hand.
pub fn show_preview_border(
    platform: Platform,
    windows: Option<&mut CaptureWindows>,
    is_capturing: bool,
    x: i32,
    y: i32,
    width: i32,
    height: i32,
    border_width: i32,
    border_color: u32,
) -> (r: Result<(), String>)
    requires
        !is_capturing ==> windows is Some,
    ensures
        windows is None ==> (r matches Err(e) && e@ == "Border is locked"@),
        match windows {
            None => true,
            Some(w) => {
                &&& is_capturing ==> match w.hollow_border {
                    Some(_) => r is Ok && (final(w).hollow_border matches Some(b) && b@.rect == (
                        x,
                        y,
                        width,
                        height,
                    ) && b@.border_width == border_width),
                    None => (r matches Err(e) && e@ == "Capture is active but no border found"@)
                        && final(w).hollow_border is None,
                }
                &&& is_capturing ==> final(w).preview_border == w.preview_border
                    && final(w).destination_window == w.destination_window
                    && final(w).separation_layer == w.separation_layer
                &&& !is_capturing ==> r is Ok && (final(w).preview_border matches Some(b) && b@.rect
                    == (x, y, width, height) && b@.border_width == border_width)
                    && final(w).hollow_border == w.hollow_border
                &&& !is_capturing ==> final(w).destination_window == (if platform
                    == Platform::Windows || platform == Platform::MacOS {
                    placed_opt(w.destination_window, x, y, width as u32, height as u32)
                } else {
                    w.destination_window
                })
                &&& !is_capturing ==> final(w).separation_layer == (if platform
                    == Platform::Windows {
                    moved_layer(w.separation_layer, x, y, width, height)
                } else {
                    w.separation_layer
                })
                &&& final(w).rec_indicator == w.rec_indicator
                &&& final(w).cursor_filter == w.cursor_filter
            },
        },
{
    let windows = match windows {
        Some(w) => w,
        None => {
            return Err(string_of("Border is locked"));
        },
    };
    if is_capturing {
        return update_capture_border_for_preview(
            Some(&mut windows.hollow_border),
            x,
            y,
            width,
            height,
            border_width,
            border_color,
        );
    }
    match windows.preview_border.take() {
        Some(mut border) => {
            update_border_for_preview(&mut border, x, y, width, height, border_width, border_color);
            windows.preview_border = Some(border);
        },
        None => {
            match create_preview_border(x, y, width, height, border_width, border_color) {
                Ok(border) => {
                    windows.preview_border = Some(border);
                },
                Err(e) => {
                    return Err(e);
                },
            }
        },
    }
    sync_preview_window_to_border(platform, windows, x, y, width, height);
    Ok(())
}

/// Hides the border shown while the settings are edited. While a capture runs, the capture
/// border, where there is one, goes back to capture mode and stays: an error where the
/// windows are held elsewhere (`windows` is what locking them gave). Otherwise the preview
/// border is closed; the windows are then waited for, so they are at hand.
pub fn hide_preview_border(windows: Option<&mut CaptureWindows>, is_capturing: bool) -> (r: Result<
    (),
    String,
>)
    requires
        !is_capturing ==> windows is Some,
    ensures
        windows is None ==> (r matches Err(e) && e@ == "Border is locked"@),
        match windows {
            None => true,
            Some(w) => {
                &&& r is Ok
                &&& is_capturing && w.hollow_border is Some ==> final(w).preview_border
                    == w.preview_border
                &&& !(is_capturing && w.hollow_border is Some) ==> final(w).preview_border is None
                &&& final(w).hollow_border is Some <==> w.hollow_border is Some
                &&& final(w).hollow_border matches Some(b) ==> w.hollow_border matches Some(a) && b@
                    == a@
                &&& final(w).destination_window == w.destination_window
                &&& final(w).rec_indicator == w.rec_indicator
                &&& final(w).separation_layer == w.separation_layer
                &&& final(w).cursor_filter == w.cursor_filter
            },
        },
{
    let windows = match windows {
        Some(w) => w,
        None => {
            return Err(string_of("Border is locked"));
        },
    };
    if is_capturing {
        let updated = set_capture_border_mode_if_active(Some(&mut windows.hollow_border));
        match updated {
            Ok(true) => {
                return Ok(());
            },
            Ok(false) => {},
            Err(e) => {
                return Err(e);
            },
        }
    }
    clear_preview_border(windows);
    Ok(())
}

/// Moves the preview border, where there is one.
pub fn update_preview_border(windows: &mut CaptureWindows, x: i32, y: i32, width: i32, height: i32) -> (r:
    Result<(), String>)
    ensures
        r is Ok,
        match old(windows).preview_border {
            Some(a) => final(windows).preview_border matches Some(b) && b@.rect == (x, y, width, height)
                && b@.border_width == a@.border_width,
            None => final(windows).preview_border is None,
        },
        final(windows).hollow_border == old(windows).hollow_border,
        final(windows).destination_window == old(windows).destination_window,
        final(windows).rec_indicator == old(windows).rec_indicator,
        final(windows).separation_layer == old(windows).separation_layer,
        final(windows).cursor_filter == old(windows).cursor_filter,
{
    match windows.preview_border.take() {
        Some(mut border) => {
            border.update_rect(x, y, width, height);
            windows.preview_border = Some(border);
        },
        None => {},
    }
    Ok(())
}

/// Restyles the preview border, where there is one.
pub fn update_preview_border_style(windows: &mut CaptureWindows, border_width: i32, border_color: u32) -> (r:
    Result<(), String>)
    ensures
        r is Ok,
        match old(windows).preview_border {
            Some(a) => final(windows).preview_border matches Some(b) && b@.rect == a@.rect
                && b@.border_width == border_width,
            None => final(windows).preview_border is None,
        },
        final(windows).hollow_border == old(windows).hollow_border,
        final(windows).destination_window == old(windows).destination_window,
        final(windows).rec_indicator == old(windows).rec_indicator,
        final(windows).separation_layer == old(windows).separation_layer,
        final(windows).cursor_filter == old(windows).cursor_filter,
{
    match windows.preview_border.take() {
        Some(mut border) => {
            border.update_style(border_width, border_color);
            windows.preview_border = Some(border);
        },
        None => {},
    }
    Ok(())
}

/// The preview border's rectangle, where there is one.
pub fn get_preview_border_rect(windows: &CaptureWindows) -> (r: Result<Option<(i32, i32, i32, i32)>, String>)
    ensures
        r == Ok::<Option<(i32, i32, i32, i32)>, String>(
            match windows.preview_border {
                Some(b) => Some(b@.rect),
                None => None,
            },
        ),
{
    match &windows.preview_border {
        Some(b) => Ok(Some(b.get_rect())),
        None => Ok(None),
    }
}

/// The region inside the capture border, as `[x, y, width, height]`, where there is one.
pub fn get_border_rect(windows: &CaptureWindows) -> (r: Option<[i32; 4]>)
    requires
        windows.hollow_border matches Some(b) ==> inner_rect_fits(b@.rect, b@.border_width),
    ensures
        match windows.hollow_border {
            Some(b) => r matches Some(a) && (a[0] as int, a[1] as int, a[2] as int, a[3] as int)
                == inner_rect_of(b@.rect, b@.border_width),
            None => r is None,
        },
{
    match get_capture_inner_rect(windows) {
        Some(rect) => Some([rect.0, rect.1, rect.2, rect.3]),
        None => None,
    }
}

} // verus!
