use vstd::prelude::*;

use crate::platform::Platform;
use crate::text::str_eq;

verus! {

/// The program that opens a folder in the platform's file manager, where there is one.
pub fn folder_opener(platform: Platform) -> (r: Option<&'static str>)
    ensures
        match platform {
            Platform::Windows => r matches Some(p) && p@ == "explorer"@,
            Platform::MacOS => r matches Some(p) && p@ == "open"@,
            Platform::Linux => r matches Some(p) && p@ == "xdg-open"@,
            Platform::Other => r is None,
        },
{
    match platform {
        Platform::Windows => Some("explorer"),
        Platform::MacOS => Some("open"),
        Platform::Linux => Some("xdg-open"),
        Platform::Other => None,
    }
}

/// The refresh rate reported for the main monitor: its display settings' frequency, at
/// least 30 Hz, or 60 Hz where the settings could not be read.
pub fn refresh_rate_from_display_settings(frequency: Option<u32>) -> (r: u32)
    ensures
        r == (match frequency {
            Some(f) => if f >= 30 {
                f
            } else {
                30
            },
            None => 60,
        }),
{
    match frequency {
        Some(f) => if f >= 30 {
            f
        } else {
            30
        },
        None => 60,
    }
}

/// Whether saving settings changes how logs are written (their level or whether they go
/// to a file), so that logging is set up again.
pub fn logging_settings_changed(
    previous_level: &str,
    previous_to_file: bool,
    new_level: &str,
    new_to_file: bool,
) -> (r: bool)
    ensures
        r == (previous_level@ != new_level@ || previous_to_file != new_to_file),
{
    !str_eq(previous_level, new_level) || previous_to_file != new_to_file
}

/// How long a frame lasts at `target_fps`, in milliseconds (rounded down).
pub fn frame_duration_ms(target_fps: u32) -> (r: u64)
    requires
        target_fps > 0,
    ensures
        r == 1000int / (target_fps as int),
{
    1000 / (target_fps as u64)
}

/// The shortest time a frame of the render loop takes, in nanoseconds: 5 ms while the
/// border is dragged or resized (about 200 frames a second), the frame duration otherwise.
pub fn min_frame_duration_ns(frame_duration_ms: u64, interacting: bool) -> (r: u64)
    requires
        frame_duration_ms <= 1000,
    ensures
        r == (if interacting {
            5_000_000
        } else {
            frame_duration_ms * 1_000_000
        }),
{
    if interacting {
        5_000_000
    } else {
        frame_duration_ms * 1_000_000
    }
}

/// How long the render loop sleeps after a frame that took `elapsed_ns`: the rest of the
/// shortest frame time, where the frame was shorter.
pub fn frame_sleep_ns(elapsed_ns: u64, min_frame_ns: u64) -> (r: Option<u64>)
    ensures
        elapsed_ns < min_frame_ns ==> r == Some((min_frame_ns - elapsed_ns) as u64),
        elapsed_ns >= min_frame_ns ==> r is None,
{
    if elapsed_ns < min_frame_ns {
        Some(min_frame_ns - elapsed_ns)
    } else {
        None
    }
}

} // verus!
