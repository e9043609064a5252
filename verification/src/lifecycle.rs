use vstd::prelude::*;

use crate::json::{Json, JsonValue};
use crate::services::CaptureWindows;
use crate::settings_io::read_active_profile_from_value;

verus! {

// ---------------------------------------------------------------------------
// Cleanup when the application ends
// ---------------------------------------------------------------------------
/// One step of the global cleanup, for the caller to carry out.
#[derive(Clone, Copy, PartialEq, Eq, Debug, Structural)]
pub enum CleanupStep {
    /// Stop the mouse hook (before the windows go).
    StopClickCapture,
    /// Let the capture border, the preview window and the recording indicator go.
    DropCaptureWindows,
    /// Forget the captured clicks.
    ClearClicks,
    /// Release the lock that keeps a second instance from running.
    ReleaseSingleInstanceLock,
}

/// The steps of the global cleanup, in order.
pub open spec fn cleanup_plan() -> Seq<CleanupStep> {
    seq![
        CleanupStep::StopClickCapture,
        CleanupStep::DropCaptureWindows,
        CleanupStep::ClearClicks,
        CleanupStep::ReleaseSingleInstanceLock,
    ]
}

/// The steps a call of `perform_cleanup` hands out: all of them the first time, none once
/// the cleanup was performed.
pub open spec fn cleanup_steps(performed: bool) -> Seq<CleanupStep> {
    if performed {
        Seq::empty()
    } else {
        cleanup_plan()
    }
}

/// Whether the global cleanup was performed.
#[derive(Debug)]
pub struct CleanupState {
    pub performed: bool,
}

impl CleanupState {
    /// No cleanup performed yet.
    pub fn new() -> (r: CleanupState)
        ensures
            !r.performed,
    {
        CleanupState { performed: false }
    }

    /// The steps of the global cleanup where it was not performed yet, none otherwise; it
    /// counts as performed afterwards. Safe to call any number of times: the cleanup runs
    /// once.
    pub fn perform_cleanup(&mut self) -> (r: Vec<CleanupStep>)
        ensures
            final(self).performed,
            r@ == cleanup_steps(old(self).performed),
    {
        let was = self.performed;
        self.performed = true;
        if was {
            Vec::new()
        } else {
            let mut v: Vec<CleanupStep> = Vec::new();
            v.push(CleanupStep::StopClickCapture);
            v.push(CleanupStep::DropCaptureWindows);
            v.push(CleanupStep::ClearClicks);
            v.push(CleanupStep::ReleaseSingleInstanceLock);
            proof {
                assert(v@ =~= cleanup_plan());
            }
            v
        }
    }

    /// Lets the cleanup run again (for a restart).
    pub fn reset_cleanup_flag(&mut self)
        ensures
            !final(self).performed,
    {
        self.performed = false;
    }
}

/// The steps handed out by `n` calls of `perform_cleanup` in a row, from a state whose flag
/// is `performed`.
pub open spec fn cleanup_calls(performed: bool, n: nat) -> Seq<CleanupStep>
    decreases n,
{
    if n == 0 {
        Seq::empty()
    } else {
        cleanup_steps(performed) + cleanup_calls(true, (n - 1) as nat)
    }
}

/// The cleanup runs once: any number of calls in a row (at least one) hands out its steps
/// exactly once where it was not performed before, and never where it was.
pub proof fn law_cleanup_runs_once(performed: bool, n: nat)
    requires
        n >= 1,
    ensures
        cleanup_calls(performed, n) == (if performed {
            Seq::<CleanupStep>::empty()
        } else {
            cleanup_plan()
        }),
    decreases n,
{
    if n > 1 {
        law_cleanup_runs_once(true, (n - 1) as nat);
    }
    assert(cleanup_calls(true, (n - 1) as nat) =~= Seq::<CleanupStep>::empty()) by {
        if n > 1 {
            law_cleanup_runs_once(true, (n - 1) as nat);
        }
    }
    assert(cleanup_calls(performed, n) =~= cleanup_steps(performed));
}

/// Lets the capture border, the preview window and the recording indicator go.
pub fn drop_capture_windows_in_background(windows: &mut CaptureWindows)
    ensures
        final(windows).hollow_border is None,
        final(windows).destination_window is None,
        final(windows).rec_indicator is None,
        final(windows).preview_border == old(windows).preview_border,
        final(windows).separation_layer == old(windows).separation_layer,
        final(windows).cursor_filter == old(windows).cursor_filter,
{
    windows.hollow_border = None;
    windows.destination_window = None;
    windows.rec_indicator = None;
}

// ---------------------------------------------------------------------------
// Events of the main window
// ---------------------------------------------------------------------------
/// The events of the main window that the application acts on.
#[derive(Clone, Copy, PartialEq, Eq, Debug, Structural)]
pub enum WindowEvent {
    CloseRequested,
    Destroyed,
    Other,
}

/// What the application does on an event of the main window: whether the window stays
/// open (it is then minimized), and the cleanup steps to carry out.
#[derive(Debug)]
pub struct WindowEventOutcome {
    pub prevent_close: bool,
    pub cleanup: Vec<CleanupStep>,
}

/// What the application does on an event of the main window. A close request while a
/// capture runs keeps the window open (minimized). Any other close request closes the
/// capture border and performs the global cleanup; so does the window's destruction
/// (without touching the border). Other events change nothing.
pub fn handle_window_event(
    state: &mut CleanupState,
    windows: &mut CaptureWindows,
    event: WindowEvent,
    is_capturing: bool,
) -> (r: WindowEventOutcome)
    ensures
        r.prevent_close == (event == WindowEvent::CloseRequested && is_capturing),
        (event == WindowEvent::CloseRequested && !is_capturing) || event == WindowEvent::Destroyed
            ==> final(state).performed && r.cleanup@ == cleanup_steps(old(state).performed),
        !((event == WindowEvent::CloseRequested && !is_capturing) || event == WindowEvent::Destroyed)
            ==> final(state).performed == old(state).performed && r.cleanup@.len() == 0,
        event == WindowEvent::CloseRequested && !is_capturing ==> final(windows).hollow_border is None,
        !(event == WindowEvent::CloseRequested && !is_capturing) ==> final(windows).hollow_border
            == old(windows).hollow_border,
        final(windows).preview_border == old(windows).preview_border,
        final(windows).destination_window == old(windows).destination_window,
        final(windows).rec_indicator == old(windows).rec_indicator,
        final(windows).separation_layer == old(windows).separation_layer,
        final(windows).cursor_filter == old(windows).cursor_filter,
{
    match event {
        WindowEvent::CloseRequested => {
            if is_capturing {
                return WindowEventOutcome { prevent_close: true, cleanup: Vec::new() };
            }
            crate::services::clear_hollow_border_for_shutdown(windows);
            let cleanup = state.perform_cleanup();
            WindowEventOutcome { prevent_close: false, cleanup }
        },
        WindowEvent::Destroyed => {
            let cleanup = state.perform_cleanup();
            WindowEventOutcome { prevent_close: false, cleanup }
        },
        WindowEvent::Other => WindowEventOutcome { prevent_close: false, cleanup: Vec::new() },
    }
}

// ---------------------------------------------------------------------------
// Start-up
// ---------------------------------------------------------------------------
/// The active profile that the settings file names at start-up: its `active_profile` where
/// that is text. `document` is the settings file's content (None where there is no
/// configuration directory; an unreadable or invalid file reads as an empty object).
pub fn load_active_profile(document: Option<&JsonValue>) -> (r: Option<String>)
    ensures
        match document {
            Some(d) => match d@.get("active_profile"@) {
                Some(Json::Str(p)) => r matches Some(s) && s@ == p,
                _ => r is None,
            },
            None => r is None,
        },
{
    match document {
        Some(d) => read_active_profile_from_value(d),
        None => None,
    }
}

} // verus!
