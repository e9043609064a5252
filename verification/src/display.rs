use vstd::prelude::*;

use crate::profiles::{strip_suffix_all, trim_end_matches};
use crate::text::{decimal, decimal_string, string_of};

verus! {

broadcast use vstd::string::group_string_axioms;

// ---------------------------------------------------------------------------
// Display information
// ---------------------------------------------------------------------------
/// Whether the shared display information was initialised, from its `initialized` flag as
/// read under its lock: `None` where the lock could not be read (it was poisoned), which
/// counts as not initialised.
pub fn is_initialized(initialized: Option<bool>) -> (r: bool)
    ensures
        r == (initialized == Some(true)),
{
    match initialized {
        Some(flag) => flag,
        None => false,
    }
}

/// What the application keeps of the display: its size in pixels, and whether it was
/// initialised (the size and scale in points are kept beside it by the application).
#[derive(Clone, Copy, PartialEq, Eq, Debug, Structural)]
pub struct DisplayStatus {
    pub width_pixels: u32,
    pub height_pixels: u32,
    pub initialized: bool,
}

/// The display before any initialisation: no size, not initialised.
pub open spec fn initial_display() -> DisplayStatus {
    DisplayStatus { width_pixels: 0, height_pixels: 0, initialized: false }
}

/// The display after an attempt to initialise it: where it succeeded with a size in pixels,
/// that size, initialised; where it failed, unchanged.
pub open spec fn display_after(d: DisplayStatus, outcome: Option<(u32, u32)>) -> DisplayStatus {
    match outcome {
        Some((w, h)) => DisplayStatus { width_pixels: w, height_pixels: h, initialized: true },
        None => d,
    }
}

/// The display after a series of attempts to initialise it, from `d`.
pub open spec fn display_after_all(d: DisplayStatus, outcomes: Seq<Option<(u32, u32)>>) -> DisplayStatus
    decreases outcomes.len(),
{
    if outcomes.len() == 0 {
        d
    } else {
        display_after(display_after_all(d, outcomes.drop_last()), outcomes.last())
    }
}

impl DisplayStatus {
    /// The display before any initialisation.
    pub fn new() -> (r: DisplayStatus)
        ensures
            r == initial_display(),
    {
        DisplayStatus { width_pixels: 0, height_pixels: 0, initialized: false }
    }

    /// Records an attempt to initialise the display: its size in pixels where it succeeded,
    /// `None` where it failed.
    pub fn record_initialization(&mut self, outcome: Option<(u32, u32)>)
        ensures
            *final(self) == display_after(*old(self), outcome),
    {
        match outcome {
            Some((w, h)) => {
                *self = DisplayStatus { width_pixels: w, height_pixels: h, initialized: true };
            },
            None => {},
        }
    }
}

/// The display counts as initialised exactly once an attempt to initialise it has
/// succeeded: false while every attempt so far failed, true after any one succeeded.
pub proof fn law_initialized_once_one_succeeds(outcomes: Seq<Option<(u32, u32)>>)
    ensures
        display_after_all(initial_display(), outcomes).initialized <==> exists|i: int|
            0 <= i < outcomes.len() && (#[trigger] outcomes[i]) is Some,
    decreases outcomes.len(),
{
    if outcomes.len() > 0 {
        let init = outcomes.drop_last();
        law_initialized_once_one_succeeds(init);
        if exists|i: int| 0 <= i < outcomes.len() && (#[trigger] outcomes[i]) is Some {
            let i = choose|i: int| 0 <= i < outcomes.len() && (#[trigger] outcomes[i]) is Some;
            if i < outcomes.len() - 1 {
                assert(init[i] == outcomes[i]);
            }
        }
        if exists|i: int| 0 <= i < init.len() && (#[trigger] init[i]) is Some {
            let i = choose|i: int| 0 <= i < init.len() && (#[trigger] init[i]) is Some;
            assert(outcomes[i] == init[i]);
        }
    }
}

// ---------------------------------------------------------------------------
// Monitors
// ---------------------------------------------------------------------------
/// A monitor as the frontend sees it (its scale factor aside): its number, name, position
/// and size in logical pixels, whether it is the primary one, and its refresh rate in Hz.
#[derive(Clone, Debug)]
pub struct MonitorEntry {
    pub id: usize,
    pub name: String,
    pub x: i32,
    pub y: i32,
    pub width: u32,
    pub height: u32,
    pub is_primary: bool,
    pub refresh_rate: u32,
}

/// A monitor as the windowing toolkit lists it: its name where it has one, and its
/// position and size in logical pixels.
#[derive(Clone, Debug)]
pub struct ListedMonitor {
    pub name: Option<String>,
    pub x: i32,
    pub y: i32,
    pub width: u32,
    pub height: u32,
}

/// The name shown for the monitor at index `idx`: its own, or `Display <idx + 1>`.
pub open spec fn monitor_name(name: Option<String>, idx: int) -> Seq<char> {
    match name {
        Some(n) => n@,
        None => "Display "@ + decimal((idx + 1) as nat),
    }
}

/// The monitor at index `idx` of the toolkit's list: numbered by its index, primary where
/// it stands at the origin (a heuristic), refreshing at 60 Hz (the toolkit does not say).
pub open spec fn is_listed_entry(m: ListedMonitor, idx: int, e: MonitorEntry) -> bool {
    &&& e.id == idx
    &&& e.name@ == monitor_name(m.name, idx)
    &&& e.x == m.x
    &&& e.y == m.y
    &&& e.width == m.width
    &&& e.height == m.height
    &&& e.is_primary == (m.x == 0 && m.y == 0)
    &&& e.refresh_rate == 60
}

/// The monitors the windowing toolkit lists, in its order (see `is_listed_entry`).
pub fn get_monitors(listed: Vec<ListedMonitor>) -> (r: Vec<MonitorEntry>)
    requires
        listed@.len() < u64::MAX,
    ensures
        r@.len() == listed@.len(),
        forall|i: int| 0 <= i < r@.len() ==> is_listed_entry(listed@[i], i, #[trigger] r@[i]),
{
    let mut r: Vec<MonitorEntry> = Vec::new();
    let mut i: usize = 0;
    while i < listed.len()
        invariant
            i <= listed@.len(),
            listed@.len() < u64::MAX,
            r@.len() == i,
            forall|k: int| 0 <= k < i ==> is_listed_entry(listed@[k], k, #[trigger] r@[k]),
        decreases listed@.len() - i,
    {
        let m = &listed[i];
        let name = match &m.name {
            Some(n) => string_of(n.as_str()),
            None => {
                let mut s = string_of("Display ");
                let number = decimal_string(i as u64 + 1);
                s.append(number.as_str());
                s
            },
        };
        r.push(
            MonitorEntry {
                id: i,
                name,
                x: m.x,
                y: m.y,
                width: m.width,
                height: m.height,
                is_primary: m.x == 0 && m.y == 0,
                refresh_rate: 60,
            },
        );
        i = i + 1;
    }
    r
}

/// A monitor as Windows describes it: numbered `id`, named by its device name without
/// trailing NULs, sized by its rectangle, primary where its flags say so (1), refreshing at
/// the rate of its display settings or at 60 Hz where they could not be read.
pub fn win32_monitor_entry(
    id: usize,
    device_name: &str,
    left: i32,
    top: i32,
    right: i32,
    bottom: i32,
    flags: u32,
    refresh_rate: Option<u32>,
) -> (r: MonitorEntry)
    requires
        i32::MIN <= right - left <= i32::MAX,
        i32::MIN <= bottom - top <= i32::MAX,
    ensures
        r.id == id,
        r.name@ == strip_suffix_all(device_name@, seq!['\0']),
        r.x == left,
        r.y == top,
        r.width == (right - left) as u32,
        r.height == (bottom - top) as u32,
        r.is_primary == (flags == 1),
        r.refresh_rate == (match refresh_rate {
            Some(hz) => hz,
            None => 60,
        }),
{
    let nul = "\0";
    proof {
        reveal_strlit("\0");
        assert(nul@ =~= seq!['\0']);
    }
    MonitorEntry {
        id,
        name: trim_end_matches(device_name, nul),
        x: left,
        y: top,
        width: (right - left) as u32,
        height: (bottom - top) as u32,
        is_primary: flags == 1,
        refresh_rate: match refresh_rate {
            Some(hz) => hz,
            None => 60,
        },
    }
}

// ---------------------------------------------------------------------------
// Where macOS reports mouse events
// ---------------------------------------------------------------------------
/// How macOS reports the position of a mouse event: origin at the top or the bottom left,
/// in points or in pixels.
#[derive(Clone, Copy, PartialEq, Eq, Debug, Structural)]
pub enum CGEventCoordMode {
    TopLeftPoints,
    TopLeftPixels,
    BottomLeftPoints,
    BottomLeftPixels,
}

/// The number under which a mode is stored (1 to 4; 0 means none detected yet).
pub open spec fn mode_number(m: CGEventCoordMode) -> u8 {
    match m {
        CGEventCoordMode::TopLeftPoints => 1,
        CGEventCoordMode::TopLeftPixels => 2,
        CGEventCoordMode::BottomLeftPoints => 3,
        CGEventCoordMode::BottomLeftPixels => 4,
    }
}

/// The mode stored under `value`, where it is one.
pub open spec fn mode_of_number(value: u8) -> Option<CGEventCoordMode> {
    if value == 1 {
        Some(CGEventCoordMode::TopLeftPoints)
    } else if value == 2 {
        Some(CGEventCoordMode::TopLeftPixels)
    } else if value == 3 {
        Some(CGEventCoordMode::BottomLeftPoints)
    } else if value == 4 {
        Some(CGEventCoordMode::BottomLeftPixels)
    } else {
        None
    }
}

/// A stored mode reads back as itself, and only the numbers of modes read as one.
pub proof fn law_coord_mode_roundtrip(m: CGEventCoordMode, value: u8)
    ensures
        mode_of_number(mode_number(m)) == Some(m),
        mode_of_number(value) matches Some(k) ==> mode_number(k) == value,
{
}

impl CGEventCoordMode {
    /// The mode stored under `value`, where it is one (see `mode_of_number`).
    pub fn from_u8(value: u8) -> (r: Option<CGEventCoordMode>)
        ensures
            r == mode_of_number(value),
    {
        match value {
            1 => Some(CGEventCoordMode::TopLeftPoints),
            2 => Some(CGEventCoordMode::TopLeftPixels),
            3 => Some(CGEventCoordMode::BottomLeftPoints),
            4 => Some(CGEventCoordMode::BottomLeftPixels),
            _ => None,
        }
    }

    /// The number the mode is stored under.
    pub fn as_u8(&self) -> (r: u8)
        ensures
            r == mode_number(*self),
    {
        match self {
            CGEventCoordMode::TopLeftPoints => 1,
            CGEventCoordMode::TopLeftPixels => 2,
            CGEventCoordMode::BottomLeftPoints => 3,
            CGEventCoordMode::BottomLeftPixels => 4,
        }
    }
}

/// The mode mouse events are reported in: the stored one where one was stored; otherwise
/// the one `detect` finds, which is stored for later calls.
pub fn cg_event_coord_mode<F: FnOnce() -> CGEventCoordMode>(stored: &mut u8, detect: F) -> (r:
    CGEventCoordMode)
    requires
        call_requires(detect, ()),
    ensures
        1 <= *old(stored) <= 4 ==> mode_number(r) == *old(stored) && *final(stored) == *old(stored),
        !(1 <= *old(stored) <= 4) ==> call_ensures(detect, (), r) && *final(stored) == mode_number(
            r,
        ),
{
    match CGEventCoordMode::from_u8(*stored) {
        Some(mode) => mode,
        None => {
            let detected = detect();
            *stored = detected.as_u8();
            detected
        },
    }
}

} // verus!
