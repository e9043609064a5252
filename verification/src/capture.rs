use vstd::prelude::*;

use crate::hollow_border::{at_least_one, inner_rect_of, max_one};
use crate::platform::Platform;
use crate::services::{capture_exclusions, exclusions_for, CaptureExclusions, WindowFilterMode};
use crate::settings::CaptureMethod;

verus! {

// ---------------------------------------------------------------------------
// The region a capture takes
// ---------------------------------------------------------------------------
/// A rectangle of the screen to capture, in pixels.
#[derive(Clone, Copy, PartialEq, Eq, Debug, Structural)]
pub struct CaptureRect {
    pub x: i32,
    pub y: i32,
    pub width: u32,
    pub height: u32,
}

/// Whether the region inside a frame `border_width` wide around `(x, y, width, height)`
/// can be computed in `i32` (the sizes and the frame's width taken as `i32`).
pub open spec fn region_fits(x: i32, y: i32, width: u32, height: u32, border_width: u32) -> bool {
    let bo = border_width as i32;
    &&& i32::MIN <= x + bo <= i32::MAX
    &&& i32::MIN <= y + bo <= i32::MAX
    &&& i32::MIN <= bo * 2 <= i32::MAX
    &&& i32::MIN <= (width as i32) - bo * 2 <= i32::MAX
    &&& i32::MIN <= (height as i32) - bo * 2 <= i32::MAX
}

/// Whether the region inside a frame `border_width` wide around `(x, y, width, height)`
/// can be computed in `i32` (see `region_fits`).
pub fn capture_region_fits(x: i32, y: i32, width: u32, height: u32, border_width: u32) -> (r: bool)
    ensures
        r == region_fits(x, y, width, height, border_width),
{
    let bo = (border_width as i32) as i64;
    let w = (width as i32) as i64;
    let h = (height as i32) as i64;
    let (x, y) = (x as i64, y as i64);
    let lo = i32::MIN as i64;
    let hi = i32::MAX as i64;
    lo <= x + bo && x + bo <= hi && lo <= y + bo && y + bo <= hi && lo <= bo * 2 && bo * 2 <= hi
        && lo <= w - bo * 2 && w - bo * 2 <= hi && lo <= h - bo * 2 && h - bo * 2 <= hi
}

/// The region inside a frame `border_width` wide around `(x, y, width, height)`: moved in
/// by the frame on each side, at least one pixel wide and high.
pub open spec fn region_inside(x: i32, y: i32, width: u32, height: u32, border_width: u32) -> CaptureRect {
    let bo = border_width as i32;
    CaptureRect {
        x: (x + bo) as i32,
        y: (y + bo) as i32,
        width: at_least_one((width as i32) - bo * 2) as u32,
        height: at_least_one((height as i32) - bo * 2) as u32,
    }
}

/// The region captured inside a border around `(x, y, width, height)` whose frame is
/// `border_width` wide (see `region_inside`).
pub fn capture_region(x: i32, y: i32, width: u32, height: u32, border_width: u32) -> (r: CaptureRect)
    requires
        region_fits(x, y, width, height, border_width),
    ensures
        r == region_inside(x, y, width, height, border_width),
{
    let bo = border_width as i32;
    let w = max_one(width as i32 - bo * 2);
    let h = max_one(height as i32 - bo * 2);
    CaptureRect { x: x + bo, y: y + bo, width: w as u32, height: h as u32 }
}

/// The region captured is the inside of the border drawn around the same rectangle: for
/// sizes and a frame width that fit in `i32`, `region_inside` gives the rectangle that the
/// border reports as its inner rectangle.
pub proof fn law_capture_region_is_border_inside(x: i32, y: i32, width: u32, height: u32, border_width: u32)
    requires
        width <= i32::MAX,
        height <= i32::MAX,
        border_width <= i32::MAX,
        region_fits(x, y, width, height, border_width),
    ensures
        ({
            let r = region_inside(x, y, width, height, border_width);
            (r.x as int, r.y as int, r.width as int, r.height as int) == inner_rect_of(
                (x, y, width as i32, height as i32),
                border_width as i32,
            )
        }),
{
    assert(border_width as i32 == border_width);
    assert(width as i32 == width);
    assert(height as i32 == height);
}

// ---------------------------------------------------------------------------
// Starting, stopping and abandoning a capture
// ---------------------------------------------------------------------------
/// The settings a capture reads once they are loaded (the base settings with the active
/// profile's overrides).
#[derive(Clone, Copy, PartialEq, Eq, Debug, Structural)]
pub struct CaptureSettings {
    pub border_width: u32,
    pub show_cursor: bool,
    pub capture_method: CaptureMethod,
    pub capture_clicks: bool,
    pub window_filter_mode: WindowFilterMode,
}

/// How a capture start runs: whether it starts the thread that renders frames, and whether
/// a shortcut asked for it.
#[derive(Clone, Copy, PartialEq, Eq, Debug, Structural)]
pub struct CaptureStartOptions {
    pub spawn_render_thread: bool,
    pub from_shortcut: bool,
}

impl Default for CaptureStartOptions {
    fn default() -> (r: Self)
        ensures
            r.spawn_render_thread,
            !r.from_shortcut,
    {
        CaptureStartOptions { spawn_render_thread: true, from_shortcut: false }
    }
}

/// What a capture start was asked for: the platform it runs on, the rectangle of the
/// border, whether the application's handle is there to register callbacks with, and the
/// options.
#[derive(Clone, Copy, PartialEq, Eq, Debug, Structural)]
pub struct CaptureRequest {
    pub platform: Platform,
    pub x: i32,
    pub y: i32,
    pub width: u32,
    pub height: u32,
    pub has_app: bool,
    pub options: CaptureStartOptions,
}

/// One step of starting, stopping or abandoning a capture, for the caller to carry out.
#[derive(Clone, Copy, PartialEq, Eq, Debug, Structural)]
pub enum CaptureAction {
    /// Close both borders and wait until the old border's window is gone (may fail).
    CleanupBeforeCaptureStart,
    /// Stop the capture engine, where there is one.
    StopCaptureEngine,
    /// Set the render thread's stop flag and wait for the thread to end.
    StopRenderThread,
    /// Close the capture border, the preview window and the recording indicator.
    ClearCaptureWindows,
    /// Record whether a capture runs.
    SetCapturing(bool),
    /// Load the base settings with the active profile's overrides; answered by
    /// `CaptureEvent::SettingsLoaded`.
    LoadCaptureSettings,
    /// Make and keep the capture border around the rectangle (may fail).
    CreateHollowBorder(i32, i32, u32, u32),
    /// Ready the border for a drag that a shortcut started.
    PrimeBorderInteraction,
    /// Make and keep the recording indicator beside the border `(x, y, width)`.
    CreateRecIndicator(i32, i32, u32),
    /// Make and keep the preview window at the rectangle (may fail).
    CreateDestinationWindow(i32, i32, u32, u32),
    /// Check that the preview window is kept.
    PostCreateDestinationWindow(i32, i32, u32, u32),
    /// Make the separation layer at the rectangle.
    CreateSeparationLayer(i32, i32, u32, u32),
    /// Make a capture engine of this method in place of the current one (may fail).
    CreateCaptureEngine(CaptureMethod),
    /// Start the engine on the region, showing the cursor or not, leaving out the windows
    /// named (may fail).
    StartCaptureEngine(CaptureRect, bool, CaptureExclusions),
    /// Set up the preview window for the running capture at the rectangle.
    ConfigurePreviewWindow(i32, i32, u32, u32),
    /// Start capturing clicks (a failure is only reported).
    StartClickCapture,
    /// Clear the render thread's stop flag.
    ClearRenderThreadStop,
    /// Register the border's drag callbacks, with the frame's width.
    RegisterBorderCallbacks(i32),
    /// Start the thread that renders frames.
    SpawnRenderThread,
    /// Forget the render thread (none is started).
    ClearRenderThreadHandle,
    /// Read the capture border's rectangle; answered by `CaptureEvent::CaptureRectRead`.
    ReadCaptureRect,
    /// Keep the rectangle as the settings' last region and save the settings.
    SaveLastRegion(i32, i32, i32, i32),
    /// Close every window of the stopped session.
    CleanupAfterCaptureStop,
    /// Close every window of the session that failed to start.
    CleanupAfterCaptureFailed,
    /// Stop capturing clicks.
    StopClickCapture,
    /// Forget the captured clicks.
    ClearClicks,
    /// Done: report success.
    Finish,
    /// Done: report the error of the step that just failed.
    Abort,
}

/// What came of the step the caller carried out.
#[derive(Clone, Copy, Debug)]
pub enum CaptureEvent {
    Completed,
    Failed,
    SettingsLoaded(CaptureSettings),
    CaptureRectRead(Option<(i32, i32, i32, i32)>),
}

/// Whether the step may fail and end the run.
pub open spec fn is_fallible(a: CaptureAction) -> bool {
    match a {
        CaptureAction::CleanupBeforeCaptureStart => true,
        CaptureAction::CreateHollowBorder(..) => true,
        CaptureAction::CreateDestinationWindow(..) => true,
        CaptureAction::CreateCaptureEngine(..) => true,
        CaptureAction::StartCaptureEngine(..) => true,
        _ => false,
    }
}

/// Whether an event answers the step: settings answer their loading, a rectangle its
/// reading, a failure only a step that may fail (or the start of click capture), and a
/// finished run takes no event.
pub open spec fn event_fits(a: CaptureAction, e: CaptureEvent) -> bool {
    &&& !(a is Finish) && !(a is Abort)
    &&& (a is LoadCaptureSettings <==> e is SettingsLoaded)
    &&& (a is ReadCaptureRect <==> e is CaptureRectRead)
    &&& (e is Failed ==> is_fallible(a) || a is StartClickCapture)
}

/// The state of a run: the step handed out last, the steps still to come, what was asked
/// for, the loaded settings, and whether the engine already fell back to GDI copy.
pub struct ControllerView {
    pub current: CaptureAction,
    pub pending: Seq<CaptureAction>,
    pub request: CaptureRequest,
    pub settings: Option<CaptureSettings>,
    pub fell_back: bool,
}

/// Runs of `start_capture`, `stop_capture` and `cleanup_on_capture_failed`, one step at a
/// time: the controller hands out a step, the caller carries it out and reports what came
/// of it.
pub struct CaptureController {
    current: CaptureAction,
    pending: Vec<CaptureAction>,
    request: CaptureRequest,
    settings: Option<CaptureSettings>,
    fell_back: bool,
}

impl View for CaptureController {
    type V = ControllerView;

    closed spec fn view(&self) -> ControllerView {
        ControllerView {
            current: self.current,
            pending: self.pending@,
            request: self.request,
            settings: self.settings,
            fell_back: self.fell_back,
        }
    }
}

pub open spec fn empty_actions() -> Seq<CaptureAction> {
    Seq::empty()
}

pub open spec fn when(c: bool, a: CaptureAction) -> Seq<CaptureAction> {
    if c {
        seq![a]
    } else {
        empty_actions()
    }
}

/// The steps of a capture start up to loading the settings, after the first one
/// (`CleanupBeforeCaptureStart`).
pub open spec fn start_preamble() -> Seq<CaptureAction> {
    seq![
        CaptureAction::StopCaptureEngine,
        CaptureAction::StopRenderThread,
        CaptureAction::ClearCaptureWindows,
        CaptureAction::SetCapturing(false),
        CaptureAction::LoadCaptureSettings,
    ]
}

/// The steps of a capture start once the settings are loaded: border, (shortcut priming),
/// recording indicator, preview window, separation layer, the engine stopped, made anew
/// and started inside the border, the preview set up, (click capture), the capture marked
/// as running, (the border's callbacks), and the render thread.
pub open spec fn start_plan(req: CaptureRequest, s: CaptureSettings) -> Seq<CaptureAction> {
    let (x, y, w, h) = (req.x, req.y, req.width, req.height);
    seq![CaptureAction::CreateHollowBorder(x, y, w, h)] + when(
        req.options.from_shortcut,
        CaptureAction::PrimeBorderInteraction,
    ) + seq![
        CaptureAction::CreateRecIndicator(x, y, w),
        CaptureAction::CreateDestinationWindow(x, y, w, h),
        CaptureAction::PostCreateDestinationWindow(x, y, w, h),
        CaptureAction::CreateSeparationLayer(x, y, w, h),
        CaptureAction::StopCaptureEngine,
        CaptureAction::CreateCaptureEngine(s.capture_method),
        CaptureAction::StartCaptureEngine(
            region_inside(x, y, w, h, s.border_width),
            s.show_cursor,
            exclusions_for(req.platform, s.window_filter_mode),
        ),
        CaptureAction::ConfigurePreviewWindow(x, y, w, h),
    ] + when(s.capture_clicks, CaptureAction::StartClickCapture) + seq![
        CaptureAction::SetCapturing(true),
        CaptureAction::ClearRenderThreadStop,
    ] + when(req.has_app, CaptureAction::RegisterBorderCallbacks(s.border_width as i32)) + seq![
        if req.options.spawn_render_thread {
            CaptureAction::SpawnRenderThread
        } else {
            CaptureAction::ClearRenderThreadHandle
        },
    ]
}

/// The steps of a capture stop after the border's rectangle was read (or not).
pub open spec fn stop_plan() -> Seq<CaptureAction> {
    seq![
        CaptureAction::StopRenderThread,
        CaptureAction::StopCaptureEngine,
        CaptureAction::CleanupAfterCaptureStop,
        CaptureAction::StopClickCapture,
        CaptureAction::ClearClicks,
        CaptureAction::SetCapturing(false),
    ]
}

/// Saving the last region where the border's rectangle could be read.
pub open spec fn save_region(rect: Option<(i32, i32, i32, i32)>) -> Seq<CaptureAction> {
    match rect {
        Some(r) => seq![CaptureAction::SaveLastRegion(r.0, r.1, r.2, r.3)],
        None => empty_actions(),
    }
}

/// The steps that abandon a capture that failed to start, after the first one
/// (`StopCaptureEngine`).
pub open spec fn failed_plan() -> Seq<CaptureAction> {
    seq![
        CaptureAction::CleanupAfterCaptureFailed,
        CaptureAction::ClearClicks,
        CaptureAction::SetCapturing(false),
    ]
}

/// The next step: the first of those to come, or `Finish` where none is left.
pub open spec fn pop(v: ControllerView) -> ControllerView {
    if v.pending.len() > 0 {
        ControllerView {
            current: v.pending[0],
            pending: v.pending.skip(1),
            request: v.request,
            settings: v.settings,
            fell_back: v.fell_back,
        }
    } else {
        ControllerView {
            current: CaptureAction::Finish,
            pending: empty_actions(),
            request: v.request,
            settings: v.settings,
            fell_back: v.fell_back,
        }
    }
}

/// Whether a failed engine start is retried with GDI copy: the first failure of an engine
/// made for Windows.Graphics.Capture.
pub open spec fn falls_back(v: ControllerView) -> bool {
    &&& v.current is StartCaptureEngine
    &&& !v.fell_back
    &&& v.settings matches Some(s) && s.capture_method == CaptureMethod::Wgc
}

/// How a run goes on after an event. A completed step (or a failed start of click
/// capture, which is only reported) leads to the next. A failed engine start falls back
/// once to a GDI copy engine started on the same region; any other failure aborts the run.
/// Loaded settings plan the rest of a start; a read rectangle is saved as the last region
/// before the stop goes on.
pub open spec fn advance_spec(v: ControllerView, e: CaptureEvent) -> ControllerView {
    match e {
        CaptureEvent::Completed => pop(v),
        CaptureEvent::Failed => if v.current is StartClickCapture {
            pop(v)
        } else if falls_back(v) {
            ControllerView {
                current: CaptureAction::CreateCaptureEngine(CaptureMethod::GdiCopy),
                pending: seq![v.current] + v.pending,
                request: v.request,
                settings: v.settings,
                fell_back: true,
            }
        } else {
            ControllerView {
                current: CaptureAction::Abort,
                pending: empty_actions(),
                request: v.request,
                settings: v.settings,
                fell_back: v.fell_back,
            }
        },
        CaptureEvent::SettingsLoaded(s) => pop(
            ControllerView {
                current: v.current,
                pending: start_plan(v.request, s),
                request: v.request,
                settings: Some(s),
                fell_back: v.fell_back,
            },
        ),
        CaptureEvent::CaptureRectRead(r) => pop(
            ControllerView {
                current: v.current,
                pending: save_region(r) + v.pending,
                request: v.request,
                settings: v.settings,
                fell_back: v.fell_back,
            },
        ),
    }
}

/// The state right after a start was asked for: its first step is closing the borders.
pub open spec fn start_view(req: CaptureRequest) -> ControllerView {
    ControllerView {
        current: CaptureAction::CleanupBeforeCaptureStart,
        pending: start_preamble(),
        request: req,
        settings: None,
        fell_back: false,
    }
}

pub open spec fn no_request() -> CaptureRequest {
    CaptureRequest {
        platform: Platform::Other,
        x: 0,
        y: 0,
        width: 0,
        height: 0,
        has_app: false,
        options: CaptureStartOptions { spawn_render_thread: false, from_shortcut: false },
    }
}

/// The state right after a stop was asked for: the border's rectangle is read first where
/// the last region is remembered.
pub open spec fn stop_view(remember_last_region: bool) -> ControllerView {
    if remember_last_region {
        ControllerView {
            current: CaptureAction::ReadCaptureRect,
            pending: stop_plan(),
            request: no_request(),
            settings: None,
            fell_back: false,
        }
    } else {
        ControllerView {
            current: stop_plan()[0],
            pending: stop_plan().skip(1),
            request: no_request(),
            settings: None,
            fell_back: false,
        }
    }
}

/// The state right after a failed start is abandoned: the engine is stopped first.
pub open spec fn failed_view() -> ControllerView {
    ControllerView {
        current: CaptureAction::StopCaptureEngine,
        pending: failed_plan(),
        request: no_request(),
        settings: None,
        fell_back: false,
    }
}

fn actions_from(a: &[CaptureAction]) -> (v: Vec<CaptureAction>)
    ensures
        v@ == a@,
{
    let mut v: Vec<CaptureAction> = Vec::new();
    let mut i: usize = 0;
    while i < a.len()
        invariant
            i <= a@.len(),
            v@ == a@.take(i as int),
        decreases a@.len() - i,
    {
        v.push(a[i]);
        proof {
            assert(a@.take(i + 1) =~= a@.take(i as int).push(a@[i as int]));
        }
        i = i + 1;
    }
    proof {
        assert(a@.take(a@.len() as int) =~= a@);
    }
    v
}

fn push_when(v: &mut Vec<CaptureAction>, c: bool, a: CaptureAction)
    ensures
        final(v)@ == old(v)@ + when(c, a),
{
    if c {
        v.push(a);
        proof {
            assert(v@ =~= old(v)@ + when(c, a));
        }
    } else {
        proof {
            assert(v@ =~= old(v)@ + when(c, a));
        }
    }
}

/// The steps of a start once the settings are loaded (see `start_plan`).
fn plan_after_settings(req: CaptureRequest, s: CaptureSettings) -> (v: Vec<CaptureAction>)
    requires
        region_fits(req.x, req.y, req.width, req.height, s.border_width),
    ensures
        v@ == start_plan(req, s),
{
    let (x, y, w, h) = (req.x, req.y, req.width, req.height);
    let mut v: Vec<CaptureAction> = Vec::new();
    v.push(CaptureAction::CreateHollowBorder(x, y, w, h));
    push_when(&mut v, req.options.from_shortcut, CaptureAction::PrimeBorderInteraction);
    v.push(CaptureAction::CreateRecIndicator(x, y, w));
    v.push(CaptureAction::CreateDestinationWindow(x, y, w, h));
    v.push(CaptureAction::PostCreateDestinationWindow(x, y, w, h));
    v.push(CaptureAction::CreateSeparationLayer(x, y, w, h));
    v.push(CaptureAction::StopCaptureEngine);
    v.push(CaptureAction::CreateCaptureEngine(s.capture_method));
    let region = capture_region(x, y, w, h, s.border_width);
    let excluded = capture_exclusions(req.platform, s.window_filter_mode);
    v.push(CaptureAction::StartCaptureEngine(region, s.show_cursor, excluded));
    v.push(CaptureAction::ConfigurePreviewWindow(x, y, w, h));
    push_when(&mut v, s.capture_clicks, CaptureAction::StartClickCapture);
    v.push(CaptureAction::SetCapturing(true));
    v.push(CaptureAction::ClearRenderThreadStop);
    push_when(&mut v, req.has_app, CaptureAction::RegisterBorderCallbacks(s.border_width as i32));
    if req.options.spawn_render_thread {
        v.push(CaptureAction::SpawnRenderThread);
    } else {
        v.push(CaptureAction::ClearRenderThreadHandle);
    }
    proof {
        assert(v@ =~= start_plan(req, s));
    }
    v
}

impl CaptureController {
    /// A capture start of the border `(x, y, width, height)`; its first step.
    pub fn start_capture(
        platform: Platform,
        x: i32,
        y: i32,
        width: u32,
        height: u32,
        has_app: bool,
        options: CaptureStartOptions,
    ) -> (r: (CaptureController, CaptureAction))
        ensures
            r.0@ == start_view(CaptureRequest { platform, x, y, width, height, has_app, options }),
            r.1 == r.0@.current,
    {
        let request = CaptureRequest { platform, x, y, width, height, has_app, options };
        let pending = actions_from(
            &[
                CaptureAction::StopCaptureEngine,
                CaptureAction::StopRenderThread,
                CaptureAction::ClearCaptureWindows,
                CaptureAction::SetCapturing(false),
                CaptureAction::LoadCaptureSettings,
            ],
        );
        proof {
            assert(pending@ =~= start_preamble());
        }
        let c = CaptureController {
            current: CaptureAction::CleanupBeforeCaptureStart,
            pending,
            request,
            settings: None,
            fell_back: false,
        };
        (c, CaptureAction::CleanupBeforeCaptureStart)
    }

    /// A capture stop; its first step. The border's rectangle is read only where the last
    /// region is remembered.
    pub fn stop_capture(remember_last_region: bool) -> (r: (CaptureController, CaptureAction))
        ensures
            r.0@ == stop_view(remember_last_region),
            r.1 == r.0@.current,
    {
        let mut pending = actions_from(
            &[
                CaptureAction::StopRenderThread,
                CaptureAction::StopCaptureEngine,
                CaptureAction::CleanupAfterCaptureStop,
                CaptureAction::StopClickCapture,
                CaptureAction::ClearClicks,
                CaptureAction::SetCapturing(false),
            ],
        );
        proof {
            assert(pending@ =~= stop_plan());
        }
        let current = if remember_last_region {
            CaptureAction::ReadCaptureRect
        } else {
            let first = pending.remove(0);
            proof {
                assert(pending@ =~= stop_plan().skip(1));
            }
            first
        };
        let c = CaptureController {
            current,
            pending,
            request: CaptureRequest {
                platform: Platform::Other,
                x: 0,
                y: 0,
                width: 0,
                height: 0,
                has_app: false,
                options: CaptureStartOptions { spawn_render_thread: false, from_shortcut: false },
            },
            settings: None,
            fell_back: false,
        };
        (c, current)
    }

    /// The abandonment of a capture that failed to start; its first step.
    pub fn cleanup_on_capture_failed() -> (r: (CaptureController, CaptureAction))
        ensures
            r.0@ == failed_view(),
            r.1 == r.0@.current,
    {
        let pending = actions_from(
            &[
                CaptureAction::CleanupAfterCaptureFailed,
                CaptureAction::ClearClicks,
                CaptureAction::SetCapturing(false),
            ],
        );
        proof {
            assert(pending@ =~= failed_plan());
        }
        let c = CaptureController {
            current: CaptureAction::StopCaptureEngine,
            pending,
            request: CaptureRequest {
                platform: Platform::Other,
                x: 0,
                y: 0,
                width: 0,
                height: 0,
                has_app: false,
                options: CaptureStartOptions { spawn_render_thread: false, from_shortcut: false },
            },
            settings: None,
            fell_back: false,
        };
        (c, CaptureAction::StopCaptureEngine)
    }

    /// The step handed out last.
    pub fn current(&self) -> (r: CaptureAction)
        ensures
            r == self@.current,
    {
        self.current
    }

    fn pop_next(&mut self)
        ensures
            final(self)@ == pop(old(self)@),
    {
        if self.pending.len() > 0 {
            let next = self.pending.remove(0);
            proof {
                assert(self.pending@ =~= old(self)@.pending.skip(1));
            }
            self.current = next;
        } else {
            self.current = CaptureAction::Finish;
            proof {
                assert(self.pending@ =~= empty_actions());
            }
        }
    }

    /// Goes on after what came of the step handed out last (see `advance_spec`); the next
    /// step.
    pub fn advance(&mut self, event: CaptureEvent) -> (r: CaptureAction)
        requires
            event_fits(old(self)@.current, event),
            event matches CaptureEvent::SettingsLoaded(s) ==> region_fits(
                old(self)@.request.x,
                old(self)@.request.y,
                old(self)@.request.width,
                old(self)@.request.height,
                s.border_width,
            ),
        ensures
            final(self)@ == advance_spec(old(self)@, event),
            r == final(self)@.current,
    {
        match event {
            CaptureEvent::Completed => {
                self.pop_next();
            },
            CaptureEvent::Failed => {
                let is_click = match self.current {
                    CaptureAction::StartClickCapture => true,
                    _ => false,
                };
                let is_start = match self.current {
                    CaptureAction::StartCaptureEngine(..) => true,
                    _ => false,
                };
                let wgc = match self.settings {
                    Some(s) => match s.capture_method {
                        CaptureMethod::Wgc => true,
                        _ => false,
                    },
                    None => false,
                };
                if is_click {
                    self.pop_next();
                } else if is_start && !self.fell_back && wgc {
                    self.pending.insert(0, self.current);
                    self.current = CaptureAction::CreateCaptureEngine(CaptureMethod::GdiCopy);
                    self.fell_back = true;
                    proof {
                        assert(self.pending@ =~= seq![old(self)@.current] + old(self)@.pending);
                    }
                } else {
                    self.current = CaptureAction::Abort;
                    self.pending = Vec::new();
                    proof {
                        assert(self.pending@ =~= empty_actions());
                    }
                }
            },
            CaptureEvent::SettingsLoaded(s) => {
                self.pending = plan_after_settings(self.request, s);
                self.settings = Some(s);
                self.pop_next();
            },
            CaptureEvent::CaptureRectRead(rect) => {
                match rect {
                    Some(r) => {
                        self.pending.insert(0, CaptureAction::SaveLastRegion(r.0, r.1, r.2, r.3));
                        proof {
                            assert(self.pending@ =~= save_region(rect) + old(self)@.pending);
                        }
                    },
                    None => {
                        proof {
                            assert(self.pending@ =~= save_region(rect) + old(self)@.pending);
                        }
                    },
                }
                self.pop_next();
            },
        }
        self.current
    }
}


// ---------------------------------------------------------------------------
// Runs in which every step succeeds
// ---------------------------------------------------------------------------
/// The event that reports a step's success: the settings `s` for their loading, the
/// rectangle `rect` for its reading, `Completed` for any other step.
pub open spec fn success_event(v: ControllerView, s: CaptureSettings, rect: Option<(i32, i32, i32, i32)>) -> CaptureEvent {
    match v.current {
        CaptureAction::LoadCaptureSettings => CaptureEvent::SettingsLoaded(s),
        CaptureAction::ReadCaptureRect => CaptureEvent::CaptureRectRead(rect),
        _ => CaptureEvent::Completed,
    }
}

/// The steps handed out in `n` more steps of a run in which each step succeeds (see
/// `success_event`), and the state the run is then in.
pub open spec fn run_ok(v: ControllerView, s: CaptureSettings, rect: Option<(i32, i32, i32, i32)>, n: nat) -> (
    ControllerView,
    Seq<CaptureAction>,
)
    decreases n,
{
    if n == 0 {
        (v, empty_actions())
    } else {
        let v2 = advance_spec(v, success_event(v, s, rect));
        let rest = run_ok(v2, s, rect, (n - 1) as nat);
        (rest.0, seq![v2.current] + rest.1)
    }
}

/// A step that needs no answer but its success.
pub open spec fn is_plain(a: CaptureAction) -> bool {
    !(a is LoadCaptureSettings) && !(a is ReadCaptureRect)
}

pub open spec fn all_plain(p: Seq<CaptureAction>) -> bool {
    forall|i: int| 0 <= i < p.len() ==> is_plain(#[trigger] p[i])
}

/// From a plain step with plain steps to come, a successful run hands out those steps and
/// then `Finish`.
proof fn lemma_run_plain(v: ControllerView, s: CaptureSettings, rect: Option<(i32, i32, i32, i32)>)
    requires
        is_plain(v.current),
        all_plain(v.pending),
    ensures
        run_ok(v, s, rect, (v.pending.len() + 1) as nat).1 == v.pending.push(CaptureAction::Finish),
    decreases v.pending.len(),
{
    let v2 = pop(v);
    assert(advance_spec(v, success_event(v, s, rect)) == v2);
    if v.pending.len() == 0 {
        assert(v2.current == CaptureAction::Finish);
        assert(run_ok(v2, s, rect, 0).1 =~= empty_actions());
        assert(v.pending.push(CaptureAction::Finish) =~= seq![CaptureAction::Finish]);
    } else {
        assert(is_plain(v.pending[0]));
        assert forall|i: int| 0 <= i < v2.pending.len() implies is_plain(#[trigger] v2.pending[i]) by {
            assert(v2.pending[i] == v.pending[i + 1]);
        }
        lemma_run_plain(v2, s, rect);
        assert(seq![v.pending[0]] + v.pending.skip(1).push(CaptureAction::Finish) =~= v.pending.push(
            CaptureAction::Finish,
        ));
    }
}

proof fn lemma_start_plan_plain(req: CaptureRequest, s: CaptureSettings)
    ensures
        all_plain(start_plan(req, s)),
        start_plan(req, s).len() > 0,
{
    let p = start_plan(req, s);
    assert forall|i: int| 0 <= i < p.len() implies is_plain(#[trigger] p[i]) by {
    }
}

/// A capture start in which every step succeeds hands out, after closing the borders,
/// the preamble (`start_preamble`), the plan for the loaded settings (`start_plan`), then
/// `Finish`: the borders are closed before the border is made, and the border before the
/// engine, which starts on the region inside the border.
pub proof fn law_start_capture_run(req: CaptureRequest, s: CaptureSettings)
    ensures
        run_ok(start_view(req), s, None, (start_preamble().len() + start_plan(req, s).len() + 1) as nat).1
            == start_preamble() + start_plan(req, s) + seq![CaptureAction::Finish],
{
    let plan = start_plan(req, s);
    lemma_start_plan_plain(req, s);
    let v0 = start_view(req);
    let v1 = pop(v0);
    let v2 = pop(v1);
    let v3 = pop(v2);
    let v4 = pop(v3);
    let v5 = pop(v4);
    assert(v5.current == CaptureAction::LoadCaptureSettings);
    assert(v5.pending =~= empty_actions());
    let v6 = advance_spec(v5, CaptureEvent::SettingsLoaded(s));
    assert(v6.current == plan[0]);
    assert(v6.pending == plan.skip(1));
    assert forall|i: int| 0 <= i < v6.pending.len() implies is_plain(#[trigger] v6.pending[i]) by {
        assert(v6.pending[i] == plan[i + 1]);
    }
    lemma_run_plain(v6, s, None);
    let n6 = (v6.pending.len() + 1) as nat;
    let tail = v6.pending.push(CaptureAction::Finish);
    assert(run_ok(v6, s, None, n6).1 == tail);
    assert(run_ok(v5, s, None, n6 + 1).1 == seq![v6.current] + tail);
    assert(run_ok(v4, s, None, n6 + 2).1 == seq![v5.current] + (seq![v6.current] + tail));
    assert(run_ok(v3, s, None, n6 + 3).1 == seq![v4.current] + (seq![v5.current] + (seq![v6.current]
        + tail)));
    assert(run_ok(v2, s, None, n6 + 4).1 == seq![v3.current] + (seq![v4.current] + (seq![v5.current]
        + (seq![v6.current] + tail))));
    assert(run_ok(v1, s, None, n6 + 5).1 == seq![v2.current] + (seq![v3.current] + (seq![v4.current]
        + (seq![v5.current] + (seq![v6.current] + tail)))));
    assert(run_ok(v0, s, None, n6 + 6).1 == seq![v1.current] + (seq![v2.current] + (seq![v3.current]
        + (seq![v4.current] + (seq![v5.current] + (seq![v6.current] + tail))))));
    assert(seq![v1.current] + (seq![v2.current] + (seq![v3.current] + (seq![v4.current] + (seq![
        v5.current,
    ] + (seq![v6.current] + tail))))) =~= start_preamble() + plan + seq![CaptureAction::Finish]);
}

/// A capture stop in which every step succeeds: where the last region is remembered, the
/// border's rectangle is read, saved where there is one, and the stop steps (`stop_plan`)
/// follow; where it is not, the rectangle is never read and the stop steps are all there
/// is. Both end with `Finish`.
pub proof fn law_stop_capture_run(s: CaptureSettings, rect: Option<(i32, i32, i32, i32)>)
    ensures
        run_ok(stop_view(true), s, rect, (save_region(rect).len() + stop_plan().len() + 1) as nat).1
            == save_region(rect) + stop_plan() + seq![CaptureAction::Finish],
        run_ok(stop_view(false), s, rect, stop_plan().len() as nat).1 == stop_plan().skip(1) + seq![
            CaptureAction::Finish,
        ],
{
    let v0 = stop_view(true);
    let v1 = advance_spec(v0, CaptureEvent::CaptureRectRead(rect));
    let p = save_region(rect) + stop_plan();
    assert(v1.current == p[0]);
    assert(v1.pending == p.skip(1));
    assert forall|i: int| 0 <= i < v1.pending.len() implies is_plain(#[trigger] v1.pending[i]) by {
        assert(v1.pending[i] == p[i + 1]);
    }
    lemma_run_plain(v1, s, rect);
    let n1 = (v1.pending.len() + 1) as nat;
    assert(run_ok(v0, s, rect, n1 + 1).1 == seq![v1.current] + v1.pending.push(CaptureAction::Finish));
    assert(seq![v1.current] + v1.pending.push(CaptureAction::Finish) =~= p + seq![
        CaptureAction::Finish,
    ]);
    let w0 = stop_view(false);
    assert forall|i: int| 0 <= i < w0.pending.len() implies is_plain(#[trigger] w0.pending[i]) by {
    }
    lemma_run_plain(w0, s, rect);
    assert(w0.pending.push(CaptureAction::Finish) =~= stop_plan().skip(1) + seq![
        CaptureAction::Finish,
    ]);
}

/// Abandoning a failed start, every step succeeding: the engine is stopped, the windows
/// closed, the clicks forgotten, the capture marked as not running, then `Finish`.
pub proof fn law_cleanup_on_capture_failed_run(s: CaptureSettings, rect: Option<(i32, i32, i32, i32)>)
    ensures
        run_ok(failed_view(), s, rect, (failed_plan().len() + 1) as nat).1 == failed_plan()
            + seq![CaptureAction::Finish],
{
    let v0 = failed_view();
    assert forall|i: int| 0 <= i < v0.pending.len() implies is_plain(#[trigger] v0.pending[i]) by {
    }
    lemma_run_plain(v0, s, rect);
}

/// An engine made for Windows.Graphics.Capture that fails to start is replaced, once, by a
/// GDI copy engine started on the same region with the same cursor setting and the same
/// windows left out; if that fails too, the run aborts.
pub proof fn law_engine_fallback(
    v: ControllerView,
    region: CaptureRect,
    show_cursor: bool,
    excluded: CaptureExclusions,
)
    requires
        v.current == CaptureAction::StartCaptureEngine(region, show_cursor, excluded),
        !v.fell_back,
        v.settings matches Some(s) && s.capture_method == CaptureMethod::Wgc,
    ensures
        ({
            let v1 = advance_spec(v, CaptureEvent::Failed);
            let v2 = advance_spec(v1, CaptureEvent::Completed);
            let v3 = advance_spec(v2, CaptureEvent::Failed);
            &&& v1.current == CaptureAction::CreateCaptureEngine(CaptureMethod::GdiCopy)
            &&& v2.current == CaptureAction::StartCaptureEngine(region, show_cursor, excluded)
            &&& v3.current == CaptureAction::Abort
        }),
{
}

} // verus!
