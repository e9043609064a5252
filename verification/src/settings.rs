use vstd::prelude::*;

use crate::platform::Platform;
use crate::text::{ascii_lower, eq_ignore_ascii_case, eq_ignore_ascii_case_spec, str_eq, string_of};

verus! {

broadcast use vstd::string::group_string_axioms;

/// How the captured region is shown to the screen-sharing application.
#[derive(Clone, Copy, PartialEq, Eq, Debug, Structural)]
pub enum PreviewMode {
    /// Cross-platform web canvas (not implemented on macOS or Linux).
    TauriCanvas,
    /// Windows only: a lightweight native GDI window.
    WinApiGdi,
    /// macOS and Linux: a native preview window.
    Native,
}

impl PreviewMode {
    /// The preview mode a platform starts with.
    pub fn default_for(platform: Platform) -> (r: PreviewMode)
        ensures
            r == (if platform == Platform::Windows {
                PreviewMode::WinApiGdi
            } else {
                PreviewMode::Native
            }),
    {
        match platform {
            Platform::Windows => PreviewMode::WinApiGdi,
            _ => PreviewMode::Native,
        }
    }
}

/// The screen capture backend.
#[derive(Clone, Copy, PartialEq, Eq, Debug, Structural)]
pub enum CaptureMethod {
    /// Windows.Graphics.Capture (Windows only, GPU-backed).
    Wgc,
    /// GDI screen copy (Windows only, broad compatibility).
    GdiCopy,
    /// CoreGraphics-based capture (macOS and Linux).
    CoreGraphics,
}

pub open spec fn capture_method_name(m: CaptureMethod) -> Seq<char> {
    match m {
        CaptureMethod::Wgc => "WGC"@,
        CaptureMethod::GdiCopy => "GdiCopy"@,
        CaptureMethod::CoreGraphics => "CoreGraphics"@,
    }
}

impl CaptureMethod {
    /// The capture method a platform starts with.
    pub fn default_for(platform: Platform) -> (r: CaptureMethod)
        ensures
            r == (if platform == Platform::Windows {
                CaptureMethod::Wgc
            } else {
                CaptureMethod::CoreGraphics
            }),
    {
        match platform {
            Platform::Windows => CaptureMethod::Wgc,
            _ => CaptureMethod::CoreGraphics,
        }
    }

    /// The name under which the method is shown: `WGC`, `GdiCopy` or `CoreGraphics`.
    pub fn to_string(&self) -> (r: String)
        ensures
            r@ == capture_method_name(*self),
    {
        match self {
            CaptureMethod::Wgc => string_of("WGC"),
            CaptureMethod::GdiCopy => string_of("GdiCopy"),
            CaptureMethod::CoreGraphics => string_of("CoreGraphics"),
        }
    }
}

/// The global shortcuts, as accelerator strings.
#[derive(Clone, Debug)]
pub struct ShortcutSettings {
    pub start_capture: String,
    pub stop_capture: String,
    pub zoom_in: String,
    pub zoom_out: String,
}

impl Default for ShortcutSettings {
    fn default() -> (r: Self)
        ensures
            r.start_capture@ == "CmdOrCtrl+Shift+R"@,
            r.stop_capture@ == "CmdOrCtrl+Shift+S"@,
            r.zoom_in@ == "CmdOrCtrl+Shift+Equal"@,
            r.zoom_out@ == "CmdOrCtrl+Shift+Minus"@,
    {
        ShortcutSettings {
            start_capture: default_shortcut_start_capture(),
            stop_capture: default_shortcut_stop_capture(),
            zoom_in: default_shortcut_zoom_in(),
            zoom_out: default_shortcut_zoom_out(),
        }
    }
}

/// Width of the capture border, in pixels, when nothing else is set.
pub const DEFAULT_BORDER_WIDTH: u32 = 4;

/// Frame rate of the preview when nothing else is set.
pub const DEFAULT_TARGET_FPS: u32 = 60;

/// Days that log files are kept when nothing else is set.
pub const LOG_RETENTION_DAYS: u32 = 30;

/// Size of the recording indicator when nothing else is set.
pub const DEFAULT_REC_INDICATOR_SIZE: &'static str = "medium";

/// Click capture is on unless a settings file turns it off.
pub fn default_capture_clicks() -> (r: bool)
    ensures
        r,
{
    true
}

/// Clicks are highlighted in yellow, partly transparent (RGBA).
pub fn default_click_color() -> (r: [u8; 4])
    ensures
        r@ == seq![255u8, 255u8, 0u8, 180u8],
{
    [255, 255, 0, 180]
}

/// Radius of a click highlight, in points.
pub fn default_click_radius() -> (r: u32)
    ensures
        r == 20,
{
    20
}

/// How long a click highlight takes to fade, in milliseconds.
pub fn default_click_dissolve_ms() -> (r: u32)
    ensures
        r == 300,
{
    300
}

/// Only errors are logged unless a settings file says otherwise.
pub fn default_log_level() -> (r: String)
    ensures
        r@ == "Error"@,
{
    string_of("Error")
}

/// Logs are written to a file unless a settings file says otherwise.
pub fn default_log_to_file() -> (r: bool)
    ensures
        r,
{
    true
}

/// Log files are kept for `LOG_RETENTION_DAYS` days unless a settings file says otherwise.
pub fn default_log_retention_days() -> (r: u32)
    ensures
        r == LOG_RETENTION_DAYS,
{
    LOG_RETENTION_DAYS
}

/// GPU acceleration is on unless a settings file turns it off.
pub fn default_gpu_acceleration() -> (r: bool)
    ensures
        r,
{
    true
}

pub fn default_shortcut_start_capture() -> (r: String)
    ensures
        r@ == "CmdOrCtrl+Shift+R"@,
{
    string_of("CmdOrCtrl+Shift+R")
}

pub fn default_shortcut_stop_capture() -> (r: String)
    ensures
        r@ == "CmdOrCtrl+Shift+S"@,
{
    string_of("CmdOrCtrl+Shift+S")
}

pub fn default_shortcut_zoom_in() -> (r: String)
    ensures
        r@ == "CmdOrCtrl+Shift+Equal"@,
{
    string_of("CmdOrCtrl+Shift+Equal")
}

pub fn default_shortcut_zoom_out() -> (r: String)
    ensures
        r@ == "CmdOrCtrl+Shift+Minus"@,
{
    string_of("CmdOrCtrl+Shift+Minus")
}

/// The settings the application starts with, but for its interface zoom (a fraction, 1 by
/// default, kept by the application) and the window filter (whose defaults belong to the
/// capture backend).
#[derive(Clone, Debug)]
pub struct SettingsDefaults {
    pub show_cursor: bool,
    pub capture_clicks: bool,
    pub click_highlight_color: [u8; 4],
    pub click_dissolve_ms: u32,
    pub click_highlight_radius: u32,
    pub show_border: bool,
    pub border_color: [u8; 4],
    pub border_width: u32,
    pub target_fps: u32,
    pub gpu_acceleration: bool,
    pub capture_method: CaptureMethod,
    pub preview_mode: PreviewMode,
    pub capture_preview_window: bool,
    pub remember_last_region: bool,
    pub last_region: Option<[i32; 4]>,
    pub show_rec_indicator: bool,
    pub rec_indicator_size: String,
    pub log_level: String,
    pub log_to_file: bool,
    pub log_retention_days: u32,
    pub shortcuts: ShortcutSettings,
    pub debug_allow_screen_capture: Option<bool>,
}

/// The settings a platform starts with: no shadow cursor; clicks highlighted in yellow
/// (300 ms, radius 20); a red border 4 pixels wide, shown; 60 frames a second with GPU
/// acceleration; the platform's capture method and preview mode; the preview window
/// captured on macOS only; the last region `[100, 100, 600, 400]`, remembered; a medium
/// recording indicator, shown; errors logged to a file kept 30 days; the default shortcuts;
/// and no screen-capture override.
pub fn settings_defaults(platform: Platform) -> (r: SettingsDefaults)
    ensures
        !r.show_cursor,
        r.capture_clicks,
        r.click_highlight_color@ == seq![255u8, 255u8, 0u8, 180u8],
        r.click_dissolve_ms == 300,
        r.click_highlight_radius == 20,
        r.show_border,
        r.border_color@ == seq![255u8, 0u8, 0u8, 255u8],
        r.border_width == DEFAULT_BORDER_WIDTH,
        r.target_fps == DEFAULT_TARGET_FPS,
        r.gpu_acceleration,
        r.capture_method == (if platform == Platform::Windows {
            CaptureMethod::Wgc
        } else {
            CaptureMethod::CoreGraphics
        }),
        r.preview_mode == (if platform == Platform::Windows {
            PreviewMode::WinApiGdi
        } else {
            PreviewMode::Native
        }),
        r.capture_preview_window == (platform == Platform::MacOS),
        r.remember_last_region,
        r.last_region matches Some(a) && a@ == seq![100i32, 100i32, 600i32, 400i32],
        r.show_rec_indicator,
        r.rec_indicator_size@ == DEFAULT_REC_INDICATOR_SIZE@,
        r.log_level@ == "Error"@,
        r.log_to_file,
        r.log_retention_days == LOG_RETENTION_DAYS,
        r.shortcuts.start_capture@ == "CmdOrCtrl+Shift+R"@,
        r.shortcuts.stop_capture@ == "CmdOrCtrl+Shift+S"@,
        r.shortcuts.zoom_in@ == "CmdOrCtrl+Shift+Equal"@,
        r.shortcuts.zoom_out@ == "CmdOrCtrl+Shift+Minus"@,
        r.debug_allow_screen_capture is None,
{
    SettingsDefaults {
        show_cursor: false,
        capture_clicks: default_capture_clicks(),
        click_highlight_color: default_click_color(),
        click_dissolve_ms: default_click_dissolve_ms(),
        click_highlight_radius: default_click_radius(),
        show_border: true,
        border_color: [255, 0, 0, 255],
        border_width: DEFAULT_BORDER_WIDTH,
        target_fps: DEFAULT_TARGET_FPS,
        gpu_acceleration: default_gpu_acceleration(),
        capture_method: CaptureMethod::default_for(platform),
        preview_mode: PreviewMode::default_for(platform),
        capture_preview_window: platform == Platform::MacOS,
        remember_last_region: true,
        last_region: Some([100, 100, 600, 400]),
        show_rec_indicator: true,
        rec_indicator_size: string_of(DEFAULT_REC_INDICATOR_SIZE),
        log_level: default_log_level(),
        log_to_file: default_log_to_file(),
        log_retention_days: default_log_retention_days(),
        shortcuts: ShortcutSettings::default(),
        debug_allow_screen_capture: None,
    }
}

/// Name of the environment variable that lets the preview and border windows be seen by
/// screen capture tools.
pub const ALLOW_SCREEN_CAPTURE_ENV: &'static str = "RUSTFRAME_ALLOW_SCREEN_CAPTURE";

/// Whether the preview and border windows may be seen by screen capture tools: the
/// environment variable decides where it is set (`1`, `true` or `yes`, case aside for the
/// words, allow; any other value forbids); else the hidden settings key
/// `debug_allow_screen_capture` allows where it is `true`; else a development build
/// allows.
pub open spec fn allows_screen_capture(
    env_value: Option<Seq<char>>,
    debug_allow: Option<bool>,
    dev_mode: bool,
) -> bool {
    match env_value {
        Some(v) => v == "1"@ || eq_ignore_ascii_case_spec(v, "true"@) || eq_ignore_ascii_case_spec(
            v,
            "yes"@,
        ),
        None => debug_allow == Some(true) || dev_mode,
    }
}

pub open spec fn opt_str_view(s: Option<&str>) -> Option<Seq<char>> {
    match s {
        Some(v) => Some(v@),
        None => None,
    }
}

/// Whether the preview and border windows may be seen by screen capture tools (see
/// `allows_screen_capture`). `env_value` is the value of `ALLOW_SCREEN_CAPTURE_ENV`, where
/// it is set; `dev_mode` tells whether this is a development (debug) build.
pub fn should_allow_screen_capture(
    env_value: Option<&str>,
    debug_allow_screen_capture: Option<bool>,
    dev_mode: bool,
) -> (r: bool)
    ensures
        r == allows_screen_capture(opt_str_view(env_value), debug_allow_screen_capture, dev_mode),
{
    match env_value {
        Some(v) => str_eq(v, "1") || eq_ignore_ascii_case(v, "true") || eq_ignore_ascii_case(
            v,
            "yes",
        ),
        None => match debug_allow_screen_capture {
            Some(true) => true,
            _ => dev_mode,
        },
    }
}

/// Where the screen-capture variable is set, it alone decides: the hidden settings key and
/// the kind of build do not change the answer; the case of its letters does not matter;
/// `1`, `true` and `yes` allow; and no value allows that is not one of those, case aside.
pub proof fn law_env_value_decides(
    v: Seq<char>,
    w: Seq<char>,
    debug_allow: Option<bool>,
    other_debug_allow: Option<bool>,
    dev_mode: bool,
    other_dev_mode: bool,
)
    ensures
        allows_screen_capture(Some(v), debug_allow, dev_mode) == allows_screen_capture(
            Some(v),
            other_debug_allow,
            other_dev_mode,
        ),
        eq_ignore_ascii_case_spec(v, w) ==> allows_screen_capture(Some(v), debug_allow, dev_mode)
            == allows_screen_capture(Some(w), debug_allow, dev_mode),
        allows_screen_capture(Some("1"@), debug_allow, dev_mode),
        allows_screen_capture(Some("true"@), debug_allow, dev_mode),
        allows_screen_capture(Some("yes"@), debug_allow, dev_mode),
        allows_screen_capture(Some(v), debug_allow, dev_mode) ==> v == "1"@
            || eq_ignore_ascii_case_spec(v, "true"@) || eq_ignore_ascii_case_spec(v, "yes"@),
{
    reveal_strlit("1");
    reveal_strlit("true");
    reveal_strlit("yes");
    assert(eq_ignore_ascii_case_spec("true"@, "true"@));
    assert(eq_ignore_ascii_case_spec("yes"@, "yes"@));
    if eq_ignore_ascii_case_spec(v, w) {
        lemma_case_equivalent_words(v, w, "true"@);
        lemma_case_equivalent_words(v, w, "yes"@);
        lemma_case_equivalent_words(w, v, "true"@);
        lemma_case_equivalent_words(w, v, "yes"@);
        if v == "1"@ {
            lemma_one_has_no_case(v, w);
        }
        if w == "1"@ {
            assert forall|i: int| 0 <= i < w.len() implies ascii_lower(#[trigger] w[i]) == ascii_lower(
                v[i],
            ) by {}
            lemma_one_has_no_case(w, v);
        }
    }
}

/// Strings equal but for ASCII case agree on whether they equal a third one, case aside.
proof fn lemma_case_equivalent_words(v: Seq<char>, w: Seq<char>, word: Seq<char>)
    requires
        v.len() == w.len(),
        forall|i: int| 0 <= i < v.len() ==> ascii_lower(#[trigger] v[i]) == ascii_lower(w[i]),
    ensures
        eq_ignore_ascii_case_spec(v, word) ==> eq_ignore_ascii_case_spec(w, word),
{
    if eq_ignore_ascii_case_spec(v, word) {
        assert forall|i: int| 0 <= i < w.len() implies ascii_lower(#[trigger] w[i]) == ascii_lower(
            word[i],
        ) by {
            assert(ascii_lower(v[i]) == ascii_lower(w[i]));
        }
    }
}

/// `1` has no letter: the only string equal to it, case aside, is itself.
proof fn lemma_one_has_no_case(v: Seq<char>, w: Seq<char>)
    requires
        v == "1"@,
        eq_ignore_ascii_case_spec(v, w),
    ensures
        w == "1"@,
{
    reveal_strlit("1");
    assert(ascii_lower(v[0]) == ascii_lower(w[0]));
    assert(w[0] as u32 == 49);
    vstd::utf8::char_u32_cast(w[0], 49);
    vstd::utf8::char_u32_cast('1', 49);
    assert(w[0] == '1');
    assert(w =~= "1"@);
}

} // verus!
