use vstd::prelude::*;

use crate::settings::ShortcutSettings;
use crate::text::{chars_of, string_of, trim, trimmed};

verus! {

/// Global shortcuts are not registered in this release.
pub const SHORTCUTS_ENABLED: bool = false;

/// What a global shortcut does.
#[derive(Clone, Copy, PartialEq, Eq, Debug, Structural)]
pub enum ShortcutAction {
    StartCapture,
    StopCapture,
    ZoomIn,
    ZoomOut,
}

pub open spec fn action_name(a: ShortcutAction) -> Seq<char> {
    match a {
        ShortcutAction::StartCapture => "start_capture"@,
        ShortcutAction::StopCapture => "stop_capture"@,
        ShortcutAction::ZoomIn => "zoom_in"@,
        ShortcutAction::ZoomOut => "zoom_out"@,
    }
}

impl ShortcutAction {
    /// The name under which the action is sent to the frontend.
    pub fn as_str(&self) -> (r: &'static str)
        ensures
            r@ == action_name(*self),
    {
        match self {
            ShortcutAction::StartCapture => "start_capture",
            ShortcutAction::StopCapture => "stop_capture",
            ShortcutAction::ZoomIn => "zoom_in",
            ShortcutAction::ZoomOut => "zoom_out",
        }
    }
}

/// The registration of one accelerator: none where it is blank (empty once trimmed).
pub open spec fn registration(accelerator: Seq<char>, action: ShortcutAction) -> Seq<
    (Seq<char>, ShortcutAction),
> {
    if trimmed(accelerator).len() == 0 {
        Seq::empty()
    } else {
        seq![(accelerator, action)]
    }
}

/// The shortcuts to register, in order: start, stop, zoom in, zoom out, the blank ones
/// left out.
pub open spec fn registrations_of(s: ShortcutSettings) -> Seq<(Seq<char>, ShortcutAction)> {
    registration(s.start_capture@, ShortcutAction::StartCapture) + registration(
        s.stop_capture@,
        ShortcutAction::StopCapture,
    ) + registration(s.zoom_in@, ShortcutAction::ZoomIn) + registration(
        s.zoom_out@,
        ShortcutAction::ZoomOut,
    )
}

pub open spec fn registration_views(r: Seq<(String, ShortcutAction)>) -> Seq<(Seq<char>, ShortcutAction)> {
    r.map_values(|p: (String, ShortcutAction)| (p.0@, p.1))
}

fn push_registration(r: &mut Vec<(String, ShortcutAction)>, accelerator: &str, action: ShortcutAction)
    ensures
        registration_views(final(r)@) == registration_views(old(r)@) + registration(
            accelerator@,
            action,
        ),
{
    let ghost before = registration_views(r@);
    if chars_of(trim(accelerator).as_str()).len() == 0 {
        proof {
            assert(registration_views(r@) =~= before + registration(accelerator@, action));
        }
    } else {
        r.push((string_of(accelerator), action));
        proof {
            assert(registration_views(r@) =~= before + registration(accelerator@, action));
        }
    }
}

/// The accelerators to register with their actions (see `registrations_of`).
pub fn shortcut_registrations(shortcuts: &ShortcutSettings) -> (r: Vec<(String, ShortcutAction)>)
    ensures
        registration_views(r@) == registrations_of(*shortcuts),
{
    let mut r: Vec<(String, ShortcutAction)> = Vec::new();
    proof {
        assert(registration_views(r@) =~= Seq::empty());
    }
    push_registration(&mut r, shortcuts.start_capture.as_str(), ShortcutAction::StartCapture);
    push_registration(&mut r, shortcuts.stop_capture.as_str(), ShortcutAction::StopCapture);
    push_registration(&mut r, shortcuts.zoom_in.as_str(), ShortcutAction::ZoomIn);
    push_registration(&mut r, shortcuts.zoom_out.as_str(), ShortcutAction::ZoomOut);
    proof {
        assert(registration_views(r@) =~= registrations_of(*shortcuts));
    }
    r
}

} // verus!
