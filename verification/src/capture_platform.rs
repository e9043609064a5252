use vstd::prelude::*;

use crate::hollow_border::{inner_rect_fits, inner_rect_of};
use crate::platform::Platform;
use crate::services::{
    cleanup_after_capture_failed, cleanup_after_capture_stop, cleanup_before_capture_start,
    clear_capture_windows, configure_preview_window_for_capture,
    create_hollow_border_for_settings, create_rec_indicator_for_settings,
    create_separation_layer_for_capture, destination_window_config, get_capture_inner_rect,
    get_capture_rect, post_create_destination_window, store_destination_window,
    store_hollow_border, store_rec_indicator, below_layer, configured_preview, filter_with_preview,
    CaptureWindows, DestinationWindow,
    DestinationWindowConfig, SeparationLayer, WinApiDestinationOverrides,
    SEPARATION_LAYER_COLOR,
};
use crate::settings::PreviewMode;

verus! {

/// The settings that shape the windows of a capture session.
#[derive(Clone, Debug)]
pub struct WindowSettings {
    pub border_width: u32,
    pub border_color: [u8; 4],
    pub show_border: bool,
    pub show_rec_indicator: bool,
    pub rec_indicator_size: String,
    pub preview_mode: PreviewMode,
    pub capture_preview_window: bool,
    pub winapi_overrides: WinApiDestinationOverrides,
}

/// The windows side of a capture session on a platform: the steps of a capture run that
/// open, move and close windows, carried out on the session's windows.
#[derive(Clone, Copy, PartialEq, Eq, Debug, Structural)]
pub struct RealCapturePlatform {
    pub platform: Platform,
}

impl RealCapturePlatform {
    /// Closes both borders before a capture starts.
    pub fn cleanup_before_capture_start(&self, windows: &mut CaptureWindows)
        ensures
            final(windows).hollow_border is None,
            final(windows).preview_border is None,
            final(windows).destination_window == old(windows).destination_window,
            final(windows).rec_indicator == old(windows).rec_indicator,
            final(windows).separation_layer == old(windows).separation_layer,
            final(windows).cursor_filter == old(windows).cursor_filter,
    {
        cleanup_before_capture_start(windows);
    }

    /// Closes the capture border, the preview window and the recording indicator.
    pub fn clear_capture_windows(&self, windows: &mut CaptureWindows)
        ensures
            final(windows).hollow_border is None,
            final(windows).destination_window is None,
            final(windows).rec_indicator is None,
            final(windows).preview_border == old(windows).preview_border,
            final(windows).separation_layer == old(windows).separation_layer,
            final(windows).cursor_filter == old(windows).cursor_filter,
    {
        clear_capture_windows(windows);
    }

    /// Makes the capture border for the settings and keeps it.
    pub fn create_and_store_hollow_border(
        &self,
        windows: &mut CaptureWindows,
        x: i32,
        y: i32,
        width: u32,
        height: u32,
        settings: &WindowSettings,
    ) -> (r: Result<(), String>)
        ensures
            r is Ok,
            final(windows).hollow_border matches Some(b) && b@.rect == (x, y, width as i32, height as i32)
                && b@.border_width == settings.border_width as i32,
            final(windows).preview_border == old(windows).preview_border,
            final(windows).destination_window == old(windows).destination_window,
            final(windows).rec_indicator == old(windows).rec_indicator,
            final(windows).separation_layer == old(windows).separation_layer,
            final(windows).cursor_filter == old(windows).cursor_filter,
    {
        let border = create_hollow_border_for_settings(
            x,
            y,
            width,
            height,
            settings.border_width,
            settings.border_color,
            settings.show_border,
        );
        match border {
            Ok(b) => {
                store_hollow_border(windows, b);
                Ok(())
            },
            Err(e) => Err(e),
        }
    }

    /// Makes the recording indicator where the settings show it, and keeps it.
    pub fn create_and_store_rec_indicator(
        &self,
        windows: &mut CaptureWindows,
        x: i32,
        y: i32,
        width: u32,
        settings: &WindowSettings,
    )
        ensures
            settings.show_rec_indicator ==> (final(windows).rec_indicator matches Some(rec)
                && rec.size@ == settings.rec_indicator_size@ && rec.x == x && rec.y == y && rec.width
                == width as i32 && rec.border_width == settings.border_width as i32),
            !settings.show_rec_indicator ==> final(windows).rec_indicator == old(windows).rec_indicator,
            final(windows).hollow_border == old(windows).hollow_border,
            final(windows).preview_border == old(windows).preview_border,
            final(windows).destination_window == old(windows).destination_window,
            final(windows).separation_layer == old(windows).separation_layer,
            final(windows).cursor_filter == old(windows).cursor_filter,
    {
        match create_rec_indicator_for_settings(
            settings.show_rec_indicator,
            settings.rec_indicator_size.as_str(),
            x,
            y,
            width,
            settings.border_width,
        ) {
            Some(rec) => store_rec_indicator(windows, rec),
            None => {},
        }
    }

    /// Makes the preview window at the border's rectangle, as the settings shape it (see
    /// `destination_window_config`), and keeps it; the configuration it was made with.
    pub fn create_and_store_destination_window(
        &self,
        windows: &mut CaptureWindows,
        x: i32,
        y: i32,
        width: u32,
        height: u32,
        settings: &WindowSettings,
    ) -> (r: Result<DestinationWindowConfig, String>)
        requires
            self.platform == Platform::Windows || self.platform == Platform::MacOS,
            self.platform == Platform::Windows ==> settings.preview_mode != PreviewMode::Native,
        ensures
            match r {
                Ok(_) => final(windows).destination_window == Some(
                    DestinationWindow { x, y, width, height, masking: true, below_separation: false },
                ),
                Err(e) => final(windows).destination_window == old(windows).destination_window
                    && e@ == "Tauri Canvas mode not yet implemented"@,
            },
            r is Err <==> (self.platform == Platform::Windows && settings.preview_mode
                == PreviewMode::TauriCanvas),
            final(windows).hollow_border == old(windows).hollow_border,
            final(windows).preview_border == old(windows).preview_border,
            final(windows).rec_indicator == old(windows).rec_indicator,
            final(windows).separation_layer == old(windows).separation_layer,
            final(windows).cursor_filter == old(windows).cursor_filter,
    {
        let config = destination_window_config(
            self.platform,
            settings.preview_mode,
            settings.capture_preview_window,
            settings.winapi_overrides,
        );
        match config {
            Ok(c) => {
                store_destination_window(
                    windows,
                    DestinationWindow { x, y, width, height, masking: true, below_separation: false },
                );
                Ok(c)
            },
            Err(e) => Err(e),
        }
    }

    /// Checks that the preview window is kept.
    pub fn post_create_destination_window(
        &self,
        windows: &CaptureWindows,
        x: i32,
        y: i32,
        width: u32,
        height: u32,
    ) -> (r: bool)
        ensures
            r == windows.destination_window is Some,
    {
        post_create_destination_window(windows, x, y, width, height)
    }

    /// Makes the separation layer (Windows only, while the border is open).
    pub fn create_separation_layer_for_capture(
        &self,
        windows: &mut CaptureWindows,
        x: i32,
        y: i32,
        width: u32,
        height: u32,
    )
        ensures
            final(windows).separation_layer == (if self.platform == Platform::Windows && old(
                windows,
            ).hollow_border is Some {
                Some(
                    SeparationLayer {
                        x,
                        y,
                        width: width as i32,
                        height: height as i32,
                        color: SEPARATION_LAYER_COLOR,
                    },
                )
            } else {
                old(windows).separation_layer
            }),
            final(windows).destination_window == (if self.platform == Platform::Windows && old(
                windows,
            ).hollow_border is Some {
                below_layer(old(windows).destination_window)
            } else {
                old(windows).destination_window
            }),
            final(windows).hollow_border == old(windows).hollow_border,
            final(windows).preview_border == old(windows).preview_border,
            final(windows).rec_indicator == old(windows).rec_indicator,
            final(windows).cursor_filter == old(windows).cursor_filter,
    {
        create_separation_layer_for_capture(self.platform, windows, x, y, width, height);
    }

    /// Sets up the preview window for the running capture (see
    /// `configure_preview_window_for_capture` of the services).
    pub fn configure_preview_window_for_capture(
        &self,
        windows: &mut CaptureWindows,
        x: i32,
        y: i32,
        width: u32,
        height: u32,
    )
        ensures
            self.platform == Platform::Windows ==> final(windows).destination_window == (match old(
                windows,
            ).destination_window {
                Some(d) => Some(
                    configured_preview(d, old(windows).separation_layer, x, y, width, height),
                ),
                None => None,
            }),
            self.platform == Platform::Windows ==> final(windows).cursor_filter
                == filter_with_preview(
                old(windows).cursor_filter,
                final(windows).destination_window,
                (x, y, width as i32, height as i32),
            ),
            self.platform != Platform::Windows ==> final(windows).destination_window == old(
                windows,
            ).destination_window,
            self.platform != Platform::Windows ==> final(windows).cursor_filter == old(
                windows,
            ).cursor_filter,
            final(windows).hollow_border == old(windows).hollow_border,
            final(windows).preview_border == old(windows).preview_border,
            final(windows).rec_indicator == old(windows).rec_indicator,
            final(windows).separation_layer == old(windows).separation_layer,
    {
        configure_preview_window_for_capture(self.platform, windows, x, y, width, height);
    }

    /// The capture border's rectangle, where there is one.
    pub fn get_capture_rect(&self, windows: &CaptureWindows) -> (r: Option<(i32, i32, i32, i32)>)
        ensures
            match windows.hollow_border {
                Some(b) => r == Some(b@.rect),
                None => r is None,
            },
    {
        get_capture_rect(windows)
    }

    /// The region inside the capture border, where there is one.
    pub fn get_capture_inner_rect(&self, windows: &CaptureWindows) -> (r: Option<(i32, i32, i32, i32)>)
        requires
            windows.hollow_border matches Some(b) ==> inner_rect_fits(b@.rect, b@.border_width),
        ensures
            match windows.hollow_border {
                Some(b) => r matches Some(i) && (i.0 as int, i.1 as int, i.2 as int, i.3 as int)
                    == inner_rect_of(b@.rect, b@.border_width),
                None => r is None,
            },
    {
        get_capture_inner_rect(windows)
    }

    /// Closes every window of a stopped session.
    pub fn cleanup_after_capture_stop(&self, windows: &mut CaptureWindows)
        ensures
            crate::services::all_closed(self.platform, *final(windows)),
            self.platform == Platform::Windows ==> final(windows).cursor_filter is None,
            self.platform != Platform::Windows ==> final(windows).cursor_filter == old(
                windows,
            ).cursor_filter,
    {
        cleanup_after_capture_stop(self.platform, windows);
    }

    /// Closes every window of a session that failed to start.
    pub fn cleanup_after_capture_failed(&self, windows: &mut CaptureWindows)
        ensures
            crate::services::all_closed(self.platform, *final(windows)),
            final(windows).cursor_filter == old(windows).cursor_filter,
    {
        cleanup_after_capture_failed(self.platform, windows);
    }
}

} // verus!
