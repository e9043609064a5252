use vstd::prelude::*;

use crate::capture::CaptureRect;
use crate::hollow_border::{at_least_one, inner_rect_fits, max_one};
use crate::platform::Platform;
use crate::services::{
    handle_border_interaction_platform_updates, handle_border_live_move_platform_updates,
    filter_with_preview, moved_layer, placed_opt, update_rec_indicator_position, CaptureWindows,
};

verus! {

/// What the capture engine is told once the border was dragged or resized.
#[derive(Clone, Copy, PartialEq, Eq, Debug, Structural)]
pub enum EngineUpdate {
    /// Stop and start again on the region (the border moved to another monitor).
    Restart(CaptureRect),
    /// Capture this region from now on.
    UpdateRegion(CaptureRect),
}

/// The region inside the border `(x, y, width, height)` with a frame `border_w` wide, at
/// least one pixel wide and high.
pub open spec fn inner_region(x: i32, y: i32, width: i32, height: i32, border_w: i32) -> CaptureRect {
    CaptureRect {
        x: (x + border_w) as i32,
        y: (y + border_w) as i32,
        width: at_least_one(width - border_w * 2) as u32,
        height: at_least_one(height - border_w * 2) as u32,
    }
}

/// What the engine is told once a drag or resize of the border ends. Nothing where there
/// is no engine; on Windows nothing either where no monitor was found at the border's
/// centre. On Windows and macOS the engine restarts where it captures a monitor whose
/// origin differs from that of the monitor at the border's centre; otherwise it takes the
/// new region.
pub open spec fn engine_update_spec(
    platform: Platform,
    region: CaptureRect,
    engine_present: bool,
    engine_origin: Option<(i32, i32)>,
    monitor_origin: Option<(i32, i32)>,
) -> Option<EngineUpdate> {
    if platform == Platform::Windows && monitor_origin is None {
        None
    } else if !engine_present {
        None
    } else if (platform == Platform::Windows || platform == Platform::MacOS) && engine_origin
        is Some && monitor_origin is Some && engine_origin != monitor_origin {
        Some(EngineUpdate::Restart(region))
    } else {
        Some(EngineUpdate::UpdateRegion(region))
    }
}

/// Half of `v`, rounded toward zero (as integer division in Rust rounds).
pub open spec fn half(v: int) -> int {
    if v >= 0 {
        v / 2
    } else {
        -((-v) / 2)
    }
}

/// The point where the monitor under the border is looked up: its centre.
pub fn region_center(x: i32, y: i32, width: i32, height: i32) -> (r: (i32, i32))
    requires
        i32::MIN <= x + half(width as int) <= i32::MAX,
        i32::MIN <= y + half(height as int) <= i32::MAX,
    ensures
        r.0 == x + half(width as int),
        r.1 == y + half(height as int),
{
    (x + width / 2, y + height / 2)
}

/// What the engine is told once a drag or resize of the border ends (see
/// `engine_update_spec`). `engine_origin` is the origin of the monitor that the engine
/// captures, where the engine is the platform's own; `monitor_origin` that of the monitor
/// at the border's centre, where one was found.
pub fn update_capture_engine_after_border_interaction(
    platform: Platform,
    x: i32,
    y: i32,
    width: i32,
    height: i32,
    border_w: i32,
    engine_present: bool,
    engine_origin: Option<(i32, i32)>,
    monitor_origin: Option<(i32, i32)>,
) -> (r: Option<EngineUpdate>)
    requires
        inner_rect_fits((x, y, width, height), border_w),
    ensures
        r == engine_update_spec(
            platform,
            inner_region(x, y, width, height, border_w),
            engine_present,
            engine_origin,
            monitor_origin,
        ),
{
    let inner_width = max_one(width - border_w * 2);
    let inner_height = max_one(height - border_w * 2);
    let region = CaptureRect {
        x: x + border_w,
        y: y + border_w,
        width: inner_width as u32,
        height: inner_height as u32,
    };
    let windows = match platform {
        Platform::Windows => true,
        _ => false,
    };
    let native = match platform {
        Platform::Windows | Platform::MacOS => true,
        _ => false,
    };
    if windows && monitor_origin.is_none() {
        return None;
    }
    if !engine_present {
        return None;
    }
    let moved = match (engine_origin, monitor_origin) {
        (Some(a), Some(b)) => a.0 != b.0 || a.1 != b.1,
        _ => false,
    };
    if native && moved {
        Some(EngineUpdate::Restart(region))
    } else {
        Some(EngineUpdate::UpdateRegion(region))
    }
}

/// The region the engine captures while the border is dragged: the rectangle inside the
/// frame, on every platform, not clamped to one pixel.
pub open spec fn live_region(x: i32, y: i32, width: i32, height: i32, border_w: i32) -> CaptureRect {
    CaptureRect {
        x: (x + border_w) as i32,
        y: (y + border_w) as i32,
        width: (width - border_w * 2) as u32,
        height: (height - border_w * 2) as u32,
    }
}

/// One step the engine takes while the border is dragged.
#[derive(Clone, Copy, PartialEq, Eq, Debug, Structural)]
pub enum LiveEngineStep {
    /// Take the screen's current scale factor.
    RefreshScaleFactor,
    /// Capture this region from now on.
    UpdateRegion(CaptureRect),
}

/// The steps the engine, where there is one, takes while the border is dragged: first it
/// takes the screen's scale factor, then it captures the region of `live_region`.
pub open spec fn live_steps(
    x: i32,
    y: i32,
    width: i32,
    height: i32,
    border_w: i32,
    engine_present: bool,
) -> Seq<LiveEngineStep> {
    if engine_present {
        seq![
            LiveEngineStep::RefreshScaleFactor,
            LiveEngineStep::UpdateRegion(live_region(x, y, width, height, border_w)),
        ]
    } else {
        Seq::empty()
    }
}

/// The steps the engine, where there is one, takes while the border is dragged (see
/// `live_steps`).
pub fn update_capture_engine_during_live_move(
    x: i32,
    y: i32,
    width: i32,
    height: i32,
    border_w: i32,
    engine_present: bool,
) -> (r: Vec<LiveEngineStep>)
    requires
        inner_rect_fits((x, y, width, height), border_w),
    ensures
        r@ == live_steps(x, y, width, height, border_w, engine_present),
{
    let mut steps: Vec<LiveEngineStep> = Vec::new();
    if !engine_present {
        return steps;
    }
    let inner_width = width - (border_w * 2);
    let inner_height = height - (border_w * 2);
    steps.push(LiveEngineStep::RefreshScaleFactor);
    steps.push(
        LiveEngineStep::UpdateRegion(
            CaptureRect {
                x: x + border_w,
                y: y + border_w,
                width: inner_width as u32,
                height: inner_height as u32,
            },
        ),
    );
    proof {
        assert(steps@ =~= live_steps(x, y, width, height, border_w, engine_present));
    }
    steps
}

/// What happens once a drag or resize of the border ends: the windows follow the border
/// (the preview window taking the inner size), the recording indicator moves beside it,
/// and the engine is told of the new region (see
/// `update_capture_engine_after_border_interaction`). The caller reports the border's new
/// rectangle to the frontend.
pub fn border_interaction_complete(
    platform: Platform,
    windows: &mut CaptureWindows,
    x: i32,
    y: i32,
    width: i32,
    height: i32,
    border_w: i32,
    engine_present: bool,
    engine_origin: Option<(i32, i32)>,
    monitor_origin: Option<(i32, i32)>,
) -> (r: Option<EngineUpdate>)
    requires
        inner_rect_fits((x, y, width, height), border_w),
    ensures
        r == engine_update_spec(
            platform,
            inner_region(x, y, width, height, border_w),
            engine_present,
            engine_origin,
            monitor_origin,
        ),
        final(windows).destination_window == (if platform == Platform::Windows {
            placed_opt(
                old(windows).destination_window,
                x,
                y,
                at_least_one(width - border_w * 2) as u32,
                at_least_one(height - border_w * 2) as u32,
            )
        } else {
            old(windows).destination_window
        }),
        final(windows).separation_layer == (if platform == Platform::Windows {
            moved_layer(old(windows).separation_layer, x, y, width, height)
        } else {
            old(windows).separation_layer
        }),
        match old(windows).rec_indicator {
            Some(rec) => final(windows).rec_indicator matches Some(m) && m.size == rec.size && m.x
                == x && m.y == y && m.width == width && m.border_width == border_w,
            None => final(windows).rec_indicator is None,
        },
        final(windows).cursor_filter == (if platform == Platform::Windows {
            filter_with_preview(
                old(windows).cursor_filter,
                final(windows).destination_window,
                (x, y, width, height),
            )
        } else {
            old(windows).cursor_filter
        }),
        final(windows).hollow_border == old(windows).hollow_border,
        final(windows).preview_border == old(windows).preview_border,
{
    let inner_width = max_one(width - border_w * 2);
    let inner_height = max_one(height - border_w * 2);
    handle_border_interaction_platform_updates(
        platform,
        windows,
        x,
        y,
        width,
        height,
        inner_width,
        inner_height,
    );
    let update = update_capture_engine_after_border_interaction(
        platform,
        x,
        y,
        width,
        height,
        border_w,
        engine_present,
        engine_origin,
        monitor_origin,
    );
    update_rec_indicator_position(windows, x, y, width, border_w);
    update
}

/// What happens while the border is dragged: the windows follow it, the recording
/// indicator moves beside it, and the engine, where there is one, takes the steps of
/// `update_capture_engine_during_live_move`.
pub fn border_live_move(
    platform: Platform,
    windows: &mut CaptureWindows,
    x: i32,
    y: i32,
    width: i32,
    height: i32,
    border_w: i32,
    engine_present: bool,
) -> (r: Vec<LiveEngineStep>)
    requires
        inner_rect_fits((x, y, width, height), border_w),
    ensures
        r@ == live_steps(x, y, width, height, border_w, engine_present),
        final(windows).destination_window == (if platform == Platform::Windows || platform
            == Platform::MacOS {
            placed_opt(old(windows).destination_window, x, y, width as u32, height as u32)
        } else {
            old(windows).destination_window
        }),
        final(windows).separation_layer == (if platform == Platform::Windows {
            moved_layer(old(windows).separation_layer, x, y, width, height)
        } else {
            old(windows).separation_layer
        }),
        match old(windows).rec_indicator {
            Some(rec) => final(windows).rec_indicator matches Some(m) && m.size == rec.size && m.x
                == x && m.y == y && m.width == width && m.border_width == border_w,
            None => final(windows).rec_indicator is None,
        },
        final(windows).cursor_filter == (if platform == Platform::Windows {
            filter_with_preview(
                old(windows).cursor_filter,
                final(windows).destination_window,
                (x, y, width, height),
            )
        } else {
            old(windows).cursor_filter
        }),
        final(windows).hollow_border == old(windows).hollow_border,
        final(windows).preview_border == old(windows).preview_border,
{
    handle_border_live_move_platform_updates(platform, windows, x, y, width, height);
    update_rec_indicator_position(windows, x, y, width, border_w);
    update_capture_engine_during_live_move(x, y, width, height, border_w, engine_present)
}

/// After a drag or resize, the engine is told the region inside the border: the region of
/// `inner_region` is the inner rectangle the border reports for the same rectangle and
/// frame.
pub proof fn law_drag_region_is_border_inside(x: i32, y: i32, width: i32, height: i32, border_w: i32)
    requires
        inner_rect_fits((x, y, width, height), border_w),
    ensures
        ({
            let r = inner_region(x, y, width, height, border_w);
            (r.x as int, r.y as int, r.width as int, r.height as int) == crate::hollow_border::inner_rect_of(
                (x, y, width, height),
                border_w,
            )
        }),
{
}

/// On Windows and on macOS, once a drag or resize ends with an engine present and the
/// monitor under the border's centre known: where that monitor's origin differs from the
/// origin of the monitor the engine captures, the engine is stopped and restarted on the
/// region inside the border (at least one pixel wide and high); where it is the same
/// monitor, the engine only takes that region. Both platforms answer alike.
pub proof fn law_restart_on_monitor_change(
    platform: Platform,
    x: i32,
    y: i32,
    width: i32,
    height: i32,
    border_w: i32,
    engine_origin: (i32, i32),
    monitor_origin: (i32, i32),
)
    requires
        platform == Platform::Windows || platform == Platform::MacOS,
        inner_rect_fits((x, y, width, height), border_w),
    ensures
        ({
            let inside = CaptureRect {
                x: (x + border_w) as i32,
                y: (y + border_w) as i32,
                width: (if width - 2 * border_w >= 1 {
                    width - 2 * border_w
                } else {
                    1
                }) as u32,
                height: (if height - 2 * border_w >= 1 {
                    height - 2 * border_w
                } else {
                    1
                }) as u32,
            };
            let update = engine_update_spec(
                platform,
                inner_region(x, y, width, height, border_w),
                true,
                Some(engine_origin),
                Some(monitor_origin),
            );
            &&& engine_origin != monitor_origin ==> update == Some(EngineUpdate::Restart(inside))
            &&& engine_origin == monitor_origin ==> update == Some(
                EngineUpdate::UpdateRegion(inside),
            )
            &&& update == engine_update_spec(
                Platform::Windows,
                inner_region(x, y, width, height, border_w),
                true,
                Some(engine_origin),
                Some(monitor_origin),
            )
        }),
{
}

} // verus!
