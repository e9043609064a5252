use vstd::prelude::*;

use crate::hollow_border::{inner_rect_fits, inner_rect_of, HollowBorder};
use crate::platform::Platform;
use crate::text::string_of;

verus! {

// ---------------------------------------------------------------------------
// The windows of a capture session
// ---------------------------------------------------------------------------
/// The preview window that shows the captured frames: where it stands and its size,
/// whether it still masks its content, and whether it was put below the separation layer
/// in the order of windows (Windows only).
#[derive(Clone, Copy, PartialEq, Eq, Debug, Structural)]
pub struct DestinationWindow {
    pub x: i32,
    pub y: i32,
    pub width: u32,
    pub height: u32,
    pub masking: bool,
    pub below_separation: bool,
}

/// The recording indicator: its size name and where it was last placed, beside the border
/// `(x, y, width)` with a frame `border_width` wide.
#[derive(Clone, Debug)]
pub struct RecIndicator {
    pub size: String,
    pub x: i32,
    pub y: i32,
    pub width: i32,
    pub border_width: i32,
}

/// The window between the border and the preview that shows a solid colour where the
/// border is over the desktop (Windows only).
#[derive(Clone, Copy, PartialEq, Eq, Debug, Structural)]
pub struct SeparationLayer {
    pub x: i32,
    pub y: i32,
    pub width: i32,
    pub height: i32,
    pub color: u32,
}

/// A rectangle `(x, y, width, height)` of the screen.
pub type ScreenRect = (i32, i32, i32, i32);

/// The windows the application holds: the capture border, the preview border shown while
/// settings are edited, the preview window, the recording indicator and the separation
/// layer; and the cursor filtering that the capture backend was given on Windows, as the
/// preview window's rectangle and the capture rectangle it is checked against for overlap.
#[derive(Debug)]
pub struct CaptureWindows {
    pub hollow_border: Option<HollowBorder>,
    pub preview_border: Option<HollowBorder>,
    pub destination_window: Option<DestinationWindow>,
    pub rec_indicator: Option<RecIndicator>,
    pub separation_layer: Option<SeparationLayer>,
    pub cursor_filter: Option<(ScreenRect, ScreenRect)>,
}

/// Colour of the separation layer (steel blue, 0xRRGGBB).
pub const SEPARATION_LAYER_COLOR: u32 = 0x4682B4;

impl CaptureWindows {
    /// No window is open.
    pub fn new() -> (r: CaptureWindows)
        ensures
            r.hollow_border is None,
            r.preview_border is None,
            r.destination_window is None,
            r.rec_indicator is None,
            r.separation_layer is None,
            r.cursor_filter is None,
    {
        CaptureWindows {
            hollow_border: None,
            preview_border: None,
            destination_window: None,
            rec_indicator: None,
            separation_layer: None,
            cursor_filter: None,
        }
    }
}

/// Closes the capture border, the preview window and the recording indicator.
pub fn clear_capture_windows(windows: &mut CaptureWindows)
    ensures
        final(windows).hollow_border is None,
        final(windows).destination_window is None,
        final(windows).rec_indicator is None,
        final(windows).preview_border == old(windows).preview_border,
        final(windows).separation_layer == old(windows).separation_layer,
        final(windows).cursor_filter == old(windows).cursor_filter,
{
    windows.hollow_border = None;
    windows.destination_window = None;
    windows.rec_indicator = None;
}

/// Closes both borders before a capture starts (the preview border and the capture border
/// share their window's state).
pub fn cleanup_before_capture_start(windows: &mut CaptureWindows)
    ensures
        final(windows).hollow_border is None,
        final(windows).preview_border is None,
        final(windows).destination_window == old(windows).destination_window,
        final(windows).rec_indicator == old(windows).rec_indicator,
        final(windows).separation_layer == old(windows).separation_layer,
        final(windows).cursor_filter == old(windows).cursor_filter,
{
    windows.preview_border = None;
    windows.hollow_border = None;
}

/// The region inside the capture border, where there is one.
pub fn get_capture_inner_rect(windows: &CaptureWindows) -> (r: Option<(i32, i32, i32, i32)>)
    requires
        windows.hollow_border matches Some(b) ==> inner_rect_fits(b@.rect, b@.border_width),
    ensures
        match windows.hollow_border {
            Some(b) => r matches Some(i) && (i.0 as int, i.1 as int, i.2 as int, i.3 as int)
                == inner_rect_of(b@.rect, b@.border_width),
            None => r is None,
        },
{
    match &windows.hollow_border {
        Some(b) => Some(b.get_inner_rect()),
        None => None,
    }
}

/// The capture border's rectangle, where there is one.
pub fn get_capture_rect(windows: &CaptureWindows) -> (r: Option<(i32, i32, i32, i32)>)
    ensures
        match windows.hollow_border {
            Some(b) => r == Some(b@.rect),
            None => r is None,
        },
{
    match &windows.hollow_border {
        Some(b) => Some(b.get_rect()),
        None => None,
    }
}

/// Closes the capture border when the application shuts down.
pub fn clear_hollow_border_for_shutdown(windows: &mut CaptureWindows)
    ensures
        final(windows).hollow_border is None,
        final(windows).preview_border == old(windows).preview_border,
        final(windows).destination_window == old(windows).destination_window,
        final(windows).rec_indicator == old(windows).rec_indicator,
        final(windows).separation_layer == old(windows).separation_layer,
        final(windows).cursor_filter == old(windows).cursor_filter,
{
    windows.hollow_border = None;
}

/// Closes the separation layer (only Windows has one).
pub fn clear_separation_layer_for_capture(platform: Platform, windows: &mut CaptureWindows)
    ensures
        platform == Platform::Windows ==> final(windows).separation_layer is None,
        platform != Platform::Windows ==> final(windows).separation_layer == old(
            windows,
        ).separation_layer,
        final(windows).hollow_border == old(windows).hollow_border,
        final(windows).preview_border == old(windows).preview_border,
        final(windows).destination_window == old(windows).destination_window,
        final(windows).rec_indicator == old(windows).rec_indicator,
        final(windows).cursor_filter == old(windows).cursor_filter,
{
    if platform == Platform::Windows {
        windows.separation_layer = None;
    }
}

/// Clears the cursor filtering that a capture set up (Windows only: no other platform sets
/// one).
pub fn clear_cursor_filtering_after_capture(platform: Platform, windows: &mut CaptureWindows)
    ensures
        platform == Platform::Windows ==> final(windows).cursor_filter is None,
        platform != Platform::Windows ==> final(windows).cursor_filter == old(
            windows,
        ).cursor_filter,
        final(windows).hollow_border == old(windows).hollow_border,
        final(windows).preview_border == old(windows).preview_border,
        final(windows).destination_window == old(windows).destination_window,
        final(windows).rec_indicator == old(windows).rec_indicator,
        final(windows).separation_layer == old(windows).separation_layer,
{
    if platform == Platform::Windows {
        windows.cursor_filter = None;
    }
}

/// Whether a session's windows are all closed: borders, preview window, recording
/// indicator, and on Windows the separation layer.
pub open spec fn all_closed(platform: Platform, w: CaptureWindows) -> bool {
    &&& w.hollow_border is None
    &&& w.preview_border is None
    &&& w.destination_window is None
    &&& w.rec_indicator is None
    &&& platform == Platform::Windows ==> w.separation_layer is None
}

/// Closes every window of a capture session once it has stopped.
pub fn cleanup_after_capture_stop(platform: Platform, windows: &mut CaptureWindows)
    ensures
        all_closed(platform, *final(windows)),
        platform == Platform::Windows ==> final(windows).cursor_filter is None,
        platform != Platform::Windows ==> final(windows).cursor_filter == old(
            windows,
        ).cursor_filter,
        platform != Platform::Windows ==> final(windows).separation_layer == old(
            windows,
        ).separation_layer,
{
    windows.hollow_border = None;
    windows.preview_border = None;
    windows.destination_window = None;
    clear_separation_layer_for_capture(platform, windows);
    clear_cursor_filtering_after_capture(platform, windows);
    windows.rec_indicator = None;
}

/// Closes every window of a capture session that failed to start.
pub fn cleanup_after_capture_failed(platform: Platform, windows: &mut CaptureWindows)
    ensures
        all_closed(platform, *final(windows)),
        platform != Platform::Windows ==> final(windows).separation_layer == old(
            windows,
        ).separation_layer,
        final(windows).cursor_filter == old(windows).cursor_filter,
{
    windows.hollow_border = None;
    windows.preview_border = None;
    windows.destination_window = None;
    windows.rec_indicator = None;
    clear_separation_layer_for_capture(platform, windows);
}

/// A border for the settings preview, in preview mode (the whole border drags).
pub fn create_preview_border(
    x: i32,
    y: i32,
    width: i32,
    height: i32,
    border_width: i32,
    border_color: u32,
) -> (r: Result<HollowBorder, String>)
    ensures
        r matches Ok(b) && b@.rect == (x, y, width, height) && b@.border_width == border_width,
{
    match HollowBorder::new(x, y, width, height, border_width, border_color) {
        Some(mut border) => {
            border.set_preview_mode();
            Ok(border)
        },
        None => Err(string_of("Failed to create preview border")),
    }
}

/// Moves, resizes and restyles a border for the settings preview, and shows it.
pub fn update_border_for_preview(
    border: &mut HollowBorder,
    x: i32,
    y: i32,
    width: i32,
    height: i32,
    border_width: i32,
    border_color: u32,
)
    ensures
        final(border)@.rect == (x, y, width, height),
        final(border)@.border_width == border_width,
{
    border.update_rect(x, y, width, height);
    border.update_style(border_width, border_color);
    border.set_preview_mode();
    border.show();
}

/// Keeps the capture border.
pub fn store_hollow_border(windows: &mut CaptureWindows, border: HollowBorder)
    ensures
        final(windows).hollow_border == Some(border),
        final(windows).preview_border == old(windows).preview_border,
        final(windows).destination_window == old(windows).destination_window,
        final(windows).rec_indicator == old(windows).rec_indicator,
        final(windows).separation_layer == old(windows).separation_layer,
        final(windows).cursor_filter == old(windows).cursor_filter,
{
    windows.hollow_border = Some(border);
}

/// Keeps the preview window.
pub fn store_destination_window(windows: &mut CaptureWindows, window: DestinationWindow)
    ensures
        final(windows).destination_window == Some(window),
        final(windows).hollow_border == old(windows).hollow_border,
        final(windows).preview_border == old(windows).preview_border,
        final(windows).rec_indicator == old(windows).rec_indicator,
        final(windows).separation_layer == old(windows).separation_layer,
        final(windows).cursor_filter == old(windows).cursor_filter,
{
    windows.destination_window = Some(window);
}

/// Keeps the recording indicator.
pub fn store_rec_indicator(windows: &mut CaptureWindows, rec: RecIndicator)
    ensures
        final(windows).rec_indicator == Some(rec),
        final(windows).hollow_border == old(windows).hollow_border,
        final(windows).preview_border == old(windows).preview_border,
        final(windows).destination_window == old(windows).destination_window,
        final(windows).separation_layer == old(windows).separation_layer,
        final(windows).cursor_filter == old(windows).cursor_filter,
{
    windows.rec_indicator = Some(rec);
}

/// Moves the recording indicator, where there is one, beside the border `(x, y, width)`.
pub fn update_rec_indicator_position(
    windows: &mut CaptureWindows,
    x: i32,
    y: i32,
    width: i32,
    border_width: i32,
)
    ensures
        match old(windows).rec_indicator {
            Some(rec) => final(windows).rec_indicator matches Some(r) && r.size == rec.size && r.x == x
                && r.y == y && r.width == width && r.border_width == border_width,
            None => final(windows).rec_indicator is None,
        },
        final(windows).hollow_border == old(windows).hollow_border,
        final(windows).preview_border == old(windows).preview_border,
        final(windows).destination_window == old(windows).destination_window,
        final(windows).separation_layer == old(windows).separation_layer,
        final(windows).cursor_filter == old(windows).cursor_filter,
{
    match windows.rec_indicator.take() {
        Some(rec) => {
            windows.rec_indicator = Some(RecIndicator { size: rec.size, x, y, width, border_width });
        },
        None => {},
    }
}

/// Readies the capture border, where there is one, for a drag that a shortcut started.
pub fn prime_capture_border_interaction_from_shortcut(windows: &CaptureWindows) {
    match &windows.hollow_border {
        Some(border) => border.prime_interaction_from_shortcut(),
        None => {},
    }
}

/// Turns the capture border into the settings preview border (see
/// `update_border_for_preview`). `border` is what locking the capture border gave: `None`
/// where it is held elsewhere, which is an error at once, as is a capture that runs
/// without a border.
pub fn update_capture_border_for_preview(
    border: Option<&mut Option<HollowBorder>>,
    x: i32,
    y: i32,
    width: i32,
    height: i32,
    border_width: i32,
    border_color: u32,
) -> (r: Result<(), String>)
    ensures
        match border {
            None => r matches Err(e) && e@ == "Border is locked"@,
            Some(slot) => match *slot {
                Some(_) => r is Ok && (*final(slot) matches Some(b) && b@.rect == (
                    x,
                    y,
                    width,
                    height,
                ) && b@.border_width == border_width),
                None => r matches Err(e) && e@ == "Capture is active but no border found"@
                    && *final(slot) is None,
            },
        },
{
    match border {
        None => Err(string_of("Border is locked")),
        Some(slot) => match slot {
            Some(b) => {
                update_border_for_preview(b, x, y, width, height, border_width, border_color);
                Ok(())
            },
            None => Err(string_of("Capture is active but no border found")),
        },
    }
}

/// Puts the capture border, where there is one, back in capture mode; whether there was
/// one. `border` is what locking the capture border gave: `None` where it is held
/// elsewhere, which is an error at once.
pub fn set_capture_border_mode_if_active(border: Option<&mut Option<HollowBorder>>) -> (r: Result<
    bool,
    String,
>)
    ensures
        match border {
            None => r matches Err(e) && e@ == "Border is locked"@,
            Some(slot) => r == Ok::<bool, String>(*slot is Some) && (*final(slot) is Some <==> *slot
                is Some) && (*final(slot) matches Some(b) ==> *slot matches Some(a) && b@ == a@),
        },
{
    match border {
        None => Err(string_of("Border is locked")),
        Some(slot) => match slot {
            Some(b) => {
                b.set_capture_mode();
                Ok(true)
            },
            None => Ok(false),
        },
    }
}

// ---------------------------------------------------------------------------
// What each platform does to the windows
// ---------------------------------------------------------------------------
/// The preview window moved to `(x, y)` and resized to `width` by `height`.
pub open spec fn placed(d: DestinationWindow, x: i32, y: i32, width: u32, height: u32) -> DestinationWindow {
    DestinationWindow { x, y, width, height, ..d }
}

/// The rectangle of the preview window.
pub open spec fn preview_rect(d: DestinationWindow) -> ScreenRect {
    (d.x, d.y, d.width as i32, d.height as i32)
}

/// The cursor filtering once the capture backend was given the preview window's rectangle
/// and the capture rectangle: unchanged where there is no preview window.
pub open spec fn filter_with_preview(
    filter: Option<(ScreenRect, ScreenRect)>,
    preview: Option<DestinationWindow>,
    capture: ScreenRect,
) -> Option<(ScreenRect, ScreenRect)> {
    match preview {
        Some(d) => Some((preview_rect(d), capture)),
        None => filter,
    }
}

pub open spec fn placed_opt(d: Option<DestinationWindow>, x: i32, y: i32, width: u32, height: u32) -> Option<
    DestinationWindow,
> {
    match d {
        Some(w) => Some(placed(w, x, y, width, height)),
        None => None,
    }
}

pub open spec fn moved_layer(s: Option<SeparationLayer>, x: i32, y: i32, width: i32, height: i32) -> Option<
    SeparationLayer,
> {
    match s {
        Some(l) => Some(SeparationLayer { x, y, width, height, color: l.color }),
        None => None,
    }
}

fn place_destination(windows: &mut CaptureWindows, x: i32, y: i32, width: u32, height: u32)
    ensures
        final(windows).destination_window == placed_opt(
            old(windows).destination_window,
            x,
            y,
            width,
            height,
        ),
        final(windows).hollow_border == old(windows).hollow_border,
        final(windows).preview_border == old(windows).preview_border,
        final(windows).rec_indicator == old(windows).rec_indicator,
        final(windows).separation_layer == old(windows).separation_layer,
        final(windows).cursor_filter == old(windows).cursor_filter,
{
    match windows.destination_window {
        Some(d) => {
            windows.destination_window = Some(
                DestinationWindow { x, y, width, height, ..d },
            );
        },
        None => {},
    }
}

fn move_separation_layer(windows: &mut CaptureWindows, x: i32, y: i32, width: i32, height: i32)
    ensures
        final(windows).separation_layer == moved_layer(
            old(windows).separation_layer,
            x,
            y,
            width,
            height,
        ),
        final(windows).hollow_border == old(windows).hollow_border,
        final(windows).preview_border == old(windows).preview_border,
        final(windows).rec_indicator == old(windows).rec_indicator,
        final(windows).destination_window == old(windows).destination_window,
        final(windows).cursor_filter == old(windows).cursor_filter,
{
    match windows.separation_layer {
        Some(l) => {
            windows.separation_layer = Some(
                SeparationLayer { x, y, width, height, color: l.color },
            );
        },
        None => {},
    }
}

/// The preview window as a capture on Windows sets it up: placed at the border's
/// rectangle, no longer masking, and below the separation layer where there is one.
pub open spec fn configured_preview(
    d: DestinationWindow,
    layer: Option<SeparationLayer>,
    x: i32,
    y: i32,
    width: u32,
    height: u32,
) -> DestinationWindow {
    DestinationWindow {
        x,
        y,
        width,
        height,
        masking: false,
        below_separation: d.below_separation || layer is Some,
    }
}

/// Sets up the preview window once the capture runs. On Windows it is placed at the
/// border's rectangle, stops masking its content and is put below the separation layer
/// where there is one; the capture backend is then given the preview's rectangle and the
/// capture rectangle for cursor filtering. Elsewhere it was set up when created.
pub fn configure_preview_window_for_capture(
    platform: Platform,
    windows: &mut CaptureWindows,
    x: i32,
    y: i32,
    width: u32,
    height: u32,
)
    ensures
        platform == Platform::Windows ==> final(windows).destination_window == (match old(
            windows,
        ).destination_window {
            Some(d) => Some(configured_preview(d, old(windows).separation_layer, x, y, width, height)),
            None => None,
        }),
        platform == Platform::Windows ==> final(windows).cursor_filter == filter_with_preview(
            old(windows).cursor_filter,
            final(windows).destination_window,
            (x, y, width as i32, height as i32),
        ),
        platform != Platform::Windows ==> final(windows).destination_window == old(
            windows,
        ).destination_window,
        platform != Platform::Windows ==> final(windows).cursor_filter == old(windows).cursor_filter,
        final(windows).hollow_border == old(windows).hollow_border,
        final(windows).preview_border == old(windows).preview_border,
        final(windows).rec_indicator == old(windows).rec_indicator,
        final(windows).separation_layer == old(windows).separation_layer,
{
    if platform == Platform::Windows {
        match windows.destination_window {
            Some(d) => {
                let below = d.below_separation || windows.separation_layer.is_some();
                let placed = DestinationWindow {
                    x,
                    y,
                    width,
                    height,
                    masking: false,
                    below_separation: below,
                };
                windows.destination_window = Some(placed);
                windows.cursor_filter = Some(
                    ((placed.x, placed.y, placed.width as i32, placed.height as i32), (x, y, width as i32, height as i32)),
                );
            },
            None => {},
        }
    }
}

/// Follows the border with the preview window (Windows and macOS) and the separation
/// layer (Windows).
pub fn sync_preview_window_to_border(
    platform: Platform,
    windows: &mut CaptureWindows,
    x: i32,
    y: i32,
    width: i32,
    height: i32,
)
    ensures
        final(windows).destination_window == (if platform == Platform::Windows || platform
            == Platform::MacOS {
            placed_opt(old(windows).destination_window, x, y, width as u32, height as u32)
        } else {
            old(windows).destination_window
        }),
        final(windows).separation_layer == (if platform == Platform::Windows {
            moved_layer(old(windows).separation_layer, x, y, width, height)
        } else {
            old(windows).separation_layer
        }),
        final(windows).hollow_border == old(windows).hollow_border,
        final(windows).preview_border == old(windows).preview_border,
        final(windows).rec_indicator == old(windows).rec_indicator,
        final(windows).cursor_filter == old(windows).cursor_filter,
{
    if platform == Platform::Windows || platform == Platform::MacOS {
        place_destination(windows, x, y, width as u32, height as u32);
    }
    if platform == Platform::Windows {
        move_separation_layer(windows, x, y, width, height);
    }
}

/// Gives the capture backend the preview window's rectangle and the capture rectangle for
/// cursor filtering, where there is a preview window.
fn update_cursor_filter(windows: &mut CaptureWindows, capture: ScreenRect)
    ensures
        final(windows).cursor_filter == filter_with_preview(
            old(windows).cursor_filter,
            old(windows).destination_window,
            capture,
        ),
        final(windows).hollow_border == old(windows).hollow_border,
        final(windows).preview_border == old(windows).preview_border,
        final(windows).destination_window == old(windows).destination_window,
        final(windows).rec_indicator == old(windows).rec_indicator,
        final(windows).separation_layer == old(windows).separation_layer,
{
    match windows.destination_window {
        Some(d) => {
            windows.cursor_filter = Some(
                ((d.x, d.y, d.width as i32, d.height as i32), capture),
            );
        },
        None => {},
    }
}

/// What the windows do once a drag or resize of the border ends: on Windows the
/// separation layer follows the border and the preview window takes the inner size at the
/// border's position; elsewhere nothing changes.
pub fn handle_border_interaction_platform_updates(
    platform: Platform,
    windows: &mut CaptureWindows,
    x: i32,
    y: i32,
    width: i32,
    height: i32,
    inner_width: i32,
    inner_height: i32,
)
    ensures
        final(windows).destination_window == (if platform == Platform::Windows {
            placed_opt(old(windows).destination_window, x, y, inner_width as u32, inner_height as u32)
        } else {
            old(windows).destination_window
        }),
        final(windows).separation_layer == (if platform == Platform::Windows {
            moved_layer(old(windows).separation_layer, x, y, width, height)
        } else {
            old(windows).separation_layer
        }),
        final(windows).cursor_filter == (if platform == Platform::Windows {
            filter_with_preview(
                old(windows).cursor_filter,
                final(windows).destination_window,
                (x, y, width, height),
            )
        } else {
            old(windows).cursor_filter
        }),
        final(windows).hollow_border == old(windows).hollow_border,
        final(windows).preview_border == old(windows).preview_border,
        final(windows).rec_indicator == old(windows).rec_indicator,
{
    if platform == Platform::Windows {
        move_separation_layer(windows, x, y, width, height);
        place_destination(windows, x, y, inner_width as u32, inner_height as u32);
        update_cursor_filter(windows, (x, y, width, height));
    }
}

/// What the windows do while the border is dragged: the preview window follows it (Windows
/// and macOS), and so does the separation layer (Windows).
pub fn handle_border_live_move_platform_updates(
    platform: Platform,
    windows: &mut CaptureWindows,
    x: i32,
    y: i32,
    width: i32,
    height: i32,
)
    ensures
        final(windows).destination_window == (if platform == Platform::Windows || platform
            == Platform::MacOS {
            placed_opt(old(windows).destination_window, x, y, width as u32, height as u32)
        } else {
            old(windows).destination_window
        }),
        final(windows).separation_layer == (if platform == Platform::Windows {
            moved_layer(old(windows).separation_layer, x, y, width, height)
        } else {
            old(windows).separation_layer
        }),
        final(windows).cursor_filter == (if platform == Platform::Windows {
            filter_with_preview(
                old(windows).cursor_filter,
                final(windows).destination_window,
                (x, y, width, height),
            )
        } else {
            old(windows).cursor_filter
        }),
        final(windows).hollow_border == old(windows).hollow_border,
        final(windows).preview_border == old(windows).preview_border,
        final(windows).rec_indicator == old(windows).rec_indicator,
{
    if platform == Platform::Windows {
        move_separation_layer(windows, x, y, width, height);
    }
    if platform == Platform::Windows || platform == Platform::MacOS {
        place_destination(windows, x, y, width as u32, height as u32);
    }
    if platform == Platform::Windows {
        update_cursor_filter(windows, (x, y, width, height));
    }
}

/// The preview window, where there is one, put below the separation layer.
pub open spec fn below_layer(d: Option<DestinationWindow>) -> Option<DestinationWindow> {
    match d {
        Some(w) => Some(DestinationWindow { below_separation: true, ..w }),
        None => None,
    }
}

/// Opens the separation layer at the border's rectangle (Windows only). It is kept only
/// where the capture border is still open once it exists, and the preview window, where
/// there is one, is then put below it.
pub fn create_separation_layer_for_capture(
    platform: Platform,
    windows: &mut CaptureWindows,
    x: i32,
    y: i32,
    width: u32,
    height: u32,
)
    ensures
        final(windows).separation_layer == (if platform == Platform::Windows && old(
            windows,
        ).hollow_border is Some {
            Some(
                SeparationLayer {
                    x,
                    y,
                    width: width as i32,
                    height: height as i32,
                    color: SEPARATION_LAYER_COLOR,
                },
            )
        } else {
            old(windows).separation_layer
        }),
        final(windows).destination_window == (if platform == Platform::Windows && old(
            windows,
        ).hollow_border is Some {
            below_layer(old(windows).destination_window)
        } else {
            old(windows).destination_window
        }),
        final(windows).hollow_border == old(windows).hollow_border,
        final(windows).preview_border == old(windows).preview_border,
        final(windows).rec_indicator == old(windows).rec_indicator,
        final(windows).cursor_filter == old(windows).cursor_filter,
{
    if platform == Platform::Windows && windows.hollow_border.is_some() {
        windows.separation_layer = Some(
            SeparationLayer {
                x,
                y,
                width: width as i32,
                height: height as i32,
                color: SEPARATION_LAYER_COLOR,
            },
        );
        match windows.destination_window {
            Some(d) => {
                windows.destination_window = Some(DestinationWindow { below_separation: true, ..d });
            },
            None => {},
        }
    }
}

/// Whether the previous border's window is gone before a new one is made: on Windows an
/// error where it is still there after the wait (`still_valid`); elsewhere always so.
pub fn ensure_border_hwnd_cleared(platform: Platform, still_valid: bool) -> (r: Result<(), String>)
    ensures
        platform == Platform::Windows && still_valid ==> (r matches Err(e) && e@
            == "Failed to clean up previous border window"@),
        !(platform == Platform::Windows && still_valid) ==> r is Ok,
{
    if platform == Platform::Windows && still_valid {
        Err(string_of("Failed to clean up previous border window"))
    } else {
        Ok(())
    }
}

/// Checks, once the preview window was made, that it is kept: whether it is.
pub fn post_create_destination_window(
    windows: &CaptureWindows,
    x: i32,
    y: i32,
    width: u32,
    height: u32,
) -> (r: bool)
    ensures
        r == windows.destination_window is Some,
{
    windows.destination_window.is_some()
}

// ---------------------------------------------------------------------------
// Windows made from the settings
// ---------------------------------------------------------------------------
/// The capture border for the settings: around `(x, y, width, height)` with a frame
/// `border_width` wide in the settings' colour, in capture mode (clicks pass through the
/// interior), hidden where the settings do not show the border.
pub fn create_hollow_border_for_settings(
    x: i32,
    y: i32,
    width: u32,
    height: u32,
    border_width: u32,
    border_color: [u8; 4],
    show_border: bool,
) -> (r: Result<HollowBorder, String>)
    ensures
        r matches Ok(b) && b@.rect == (x, y, width as i32, height as i32) && b@.border_width
            == border_width as i32,
{
    let color = crate::colors::border_rgba_to_native_color(border_color);
    match HollowBorder::new(x, y, width as i32, height as i32, border_width as i32, color) {
        Some(mut border) => {
            border.set_capture_mode();
            if !show_border {
                border.hide_border();
            }
            Ok(border)
        },
        None => Err(string_of("Failed to create hollow border")),
    }
}

/// The recording indicator for the settings, beside the border `(x, y, width)`: none where
/// the settings do not show it.
pub fn create_rec_indicator_for_settings(
    show_rec_indicator: bool,
    rec_indicator_size: &str,
    x: i32,
    y: i32,
    width: u32,
    border_width: u32,
) -> (r: Option<RecIndicator>)
    ensures
        show_rec_indicator ==> (r matches Some(rec) && rec.size@ == rec_indicator_size@ && rec.x == x
            && rec.y == y && rec.width == width as i32 && rec.border_width == border_width as i32),
        !show_rec_indicator ==> r is None,
{
    if !show_rec_indicator {
        return None;
    }
    Some(
        RecIndicator {
            size: string_of(rec_indicator_size),
            x,
            y,
            width: width as i32,
            border_width: border_width as i32,
        },
    )
}

/// The settings that shape the preview window on Windows (None leaves the window's own
/// default).
#[derive(Clone, Copy, PartialEq, Eq, Debug, Structural)]
pub struct WinApiDestinationOverrides {
    pub alpha: Option<u8>,
    pub topmost: Option<bool>,
    pub click_through: Option<bool>,
    pub toolwindow: Option<bool>,
    pub layered: Option<bool>,
    pub appwindow: Option<bool>,
    pub noactivate: Option<bool>,
    pub overlapped: Option<bool>,
}

/// How the preview window is made: the Windows styles and the macOS window level, sharing
/// type (1 shows the window to screen sharing, 0 hides it) and place in the window cycle.
#[derive(Clone, Copy, PartialEq, Eq, Debug, Structural)]
pub struct DestinationWindowConfig {
    pub alpha: Option<u8>,
    pub topmost: Option<bool>,
    pub click_through: Option<bool>,
    pub toolwindow: Option<bool>,
    pub layered: Option<bool>,
    pub appwindow: Option<bool>,
    pub noactivate: Option<bool>,
    pub overlapped: Option<bool>,
    pub macos_floating_level: Option<bool>,
    pub macos_sharing_type: Option<u32>,
    pub macos_participates_in_cycle: Option<bool>,
}

/// How the preview window is made for the settings. On Windows the GDI preview takes the
/// settings' overrides, and the web canvas preview is not implemented (an error). On macOS
/// the window is opaque, not topmost, lets clicks through, stays at the normal level (so
/// that screen sharing pickers list it), is shown to screen sharing where the settings
/// capture the preview window, and takes part in the window cycle.
pub fn destination_window_config(
    platform: Platform,
    preview_mode: crate::settings::PreviewMode,
    capture_preview_window: bool,
    overrides: WinApiDestinationOverrides,
) -> (r: Result<DestinationWindowConfig, String>)
    requires
        platform == Platform::Windows || platform == Platform::MacOS,
        platform == Platform::Windows ==> preview_mode != crate::settings::PreviewMode::Native,
    ensures
        platform == Platform::Windows && preview_mode == crate::settings::PreviewMode::TauriCanvas
            ==> (r matches Err(e) && e@ == "Tauri Canvas mode not yet implemented"@),
        platform == Platform::Windows && preview_mode == crate::settings::PreviewMode::WinApiGdi
            ==> r == Ok::<DestinationWindowConfig, String>(
            DestinationWindowConfig {
                alpha: overrides.alpha,
                topmost: overrides.topmost,
                click_through: overrides.click_through,
                toolwindow: overrides.toolwindow,
                layered: overrides.layered,
                appwindow: overrides.appwindow,
                noactivate: overrides.noactivate,
                overlapped: overrides.overlapped,
                macos_floating_level: None,
                macos_sharing_type: None,
                macos_participates_in_cycle: None,
            },
        ),
        platform == Platform::MacOS ==> r == Ok::<DestinationWindowConfig, String>(
            DestinationWindowConfig {
                alpha: Some(255u8),
                topmost: Some(false),
                click_through: Some(true),
                toolwindow: None,
                layered: None,
                appwindow: None,
                noactivate: None,
                overlapped: None,
                macos_floating_level: Some(false),
                macos_sharing_type: Some(
                    if capture_preview_window {
                        1u32
                    } else {
                        0u32
                    },
                ),
                macos_participates_in_cycle: Some(true),
            },
        ),
{
    match platform {
        Platform::Windows => match preview_mode {
            crate::settings::PreviewMode::TauriCanvas => Err(
                string_of("Tauri Canvas mode not yet implemented"),
            ),
            _ => Ok(
                DestinationWindowConfig {
                    alpha: overrides.alpha,
                    topmost: overrides.topmost,
                    click_through: overrides.click_through,
                    toolwindow: overrides.toolwindow,
                    layered: overrides.layered,
                    appwindow: overrides.appwindow,
                    noactivate: overrides.noactivate,
                    overlapped: overrides.overlapped,
                    macos_floating_level: None,
                    macos_sharing_type: None,
                    macos_participates_in_cycle: None,
                },
            ),
        },
        _ => Ok(
            DestinationWindowConfig {
                alpha: Some(255),
                topmost: Some(false),
                click_through: Some(true),
                toolwindow: None,
                layered: None,
                appwindow: None,
                noactivate: None,
                overlapped: None,
                macos_floating_level: Some(false),
                macos_sharing_type: Some(
                    if capture_preview_window {
                        1
                    } else {
                        0
                    },
                ),
                macos_participates_in_cycle: Some(true),
            },
        ),
    }
}

/// `WS_EX_TOOLWINDOW` of the Windows API: a window kept out of the taskbar and Alt-Tab.
pub const WS_EX_TOOLWINDOW: isize = 0x80;

/// `WS_EX_APPWINDOW` of the Windows API: a window forced into the taskbar.
pub const WS_EX_APPWINDOW: isize = 0x40000;

/// The extended style that hides the preview window from the taskbar and Alt-Tab: the
/// tool-window bit set, the app-window bit cleared, every other bit kept. None where the
/// style could not be read (0).
pub fn hidden_from_taskbar_style(ex_style: isize) -> (r: Option<isize>)
    ensures
        ex_style == 0 ==> r is None,
        ex_style != 0 ==> (r matches Some(n) && n & WS_EX_TOOLWINDOW == WS_EX_TOOLWINDOW && n
            & WS_EX_APPWINDOW == 0 && n & !(WS_EX_TOOLWINDOW | WS_EX_APPWINDOW) == ex_style & !(
        WS_EX_TOOLWINDOW | WS_EX_APPWINDOW)),
{
    if ex_style == 0 {
        return None;
    }
    let n = (ex_style | WS_EX_TOOLWINDOW) & !WS_EX_APPWINDOW;
    assert(n & 0x80isize == 0x80isize && n & 0x40000isize == 0 && n & !(0x80isize | 0x40000isize)
        == ex_style & !(0x80isize | 0x40000isize)) by (bit_vector)
        requires
            n == (ex_style | 0x80isize) & !0x40000isize,
    ;
    Some(n)
}

// ---------------------------------------------------------------------------
// Windows kept out of the capture
// ---------------------------------------------------------------------------
/// How the user's window filter works.
#[derive(Clone, Copy, PartialEq, Eq, Debug, Structural)]
pub enum WindowFilterMode {
    /// No filter (`none` in the settings).
    Unfiltered,
    ExcludeList,
    IncludeOnly,
}

/// Which windows the capture engine is told to leave out.
#[derive(Clone, Copy, PartialEq, Eq, Debug, Structural)]
pub enum CaptureExclusions {
    /// The preview window, as the capture backend names it by default.
    DefaultPreviewWindow,
    /// The window filter's exclusions (the preview window, where it is known, among them).
    FilterExclusions,
    /// The preview window, where it is known.
    PreviewWindow,
}

/// Which windows the capture engine leaves out. On macOS an exclusion list gives the
/// filter's exclusions, and in the other filter modes the preview window is left out: the
/// preview window is always excluded. Elsewhere the filter is ignored and the preview
/// window is left out as the backend names it.
pub open spec fn exclusions_for(platform: Platform, mode: WindowFilterMode) -> CaptureExclusions {
    if platform != Platform::MacOS {
        CaptureExclusions::DefaultPreviewWindow
    } else if mode == WindowFilterMode::ExcludeList {
        CaptureExclusions::FilterExclusions
    } else {
        CaptureExclusions::PreviewWindow
    }
}

/// Which windows the capture engine leaves out (see `exclusions_for`).
pub fn capture_exclusions(platform: Platform, mode: WindowFilterMode) -> (r: CaptureExclusions)
    ensures
        r == exclusions_for(platform, mode),
{
    if platform != Platform::MacOS {
        return CaptureExclusions::DefaultPreviewWindow;
    }
    match mode {
        WindowFilterMode::ExcludeList => CaptureExclusions::FilterExclusions,
        _ => CaptureExclusions::PreviewWindow,
    }
}

/// How the preview window is named to the capture backend on macOS: the application's id
/// and `RustFrame Preview <window id>`.
pub fn preview_window_identifier(window_id: u64) -> (r: (String, String))
    ensures
        r.0@ == "com.rustframe.app"@,
        r.1@ == "RustFrame Preview "@ + crate::text::decimal(window_id as nat),
{
    let mut name = string_of("RustFrame Preview ");
    let id = crate::text::decimal_string(window_id);
    name.append(id.as_str());
    (string_of("com.rustframe.app"), name)
}

} // verus!
