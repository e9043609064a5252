use vstd::prelude::*;

verus! {

/// The border drawn around the captured region: its outer rectangle `(x, y, width,
/// height)` and the width of its frame. This build draws nothing; the border only keeps its
/// geometry, which the capture region is taken from.
#[derive(Debug)]
pub struct HollowBorder {
    rect: (i32, i32, i32, i32),
    border_width: i32,
}

/// A border's geometry: its outer rectangle and the width of its frame.
pub struct BorderGeometry {
    pub rect: (i32, i32, i32, i32),
    pub border_width: i32,
}

impl View for HollowBorder {
    type V = BorderGeometry;

    closed spec fn view(&self) -> BorderGeometry {
        BorderGeometry { rect: self.rect, border_width: self.border_width }
    }
}

/// Whether the inner rectangle of `rect` with a frame of `bw` can be computed in `i32`.
pub open spec fn inner_rect_fits(rect: (i32, i32, i32, i32), bw: i32) -> bool {
    &&& i32::MIN <= rect.0 + bw <= i32::MAX
    &&& i32::MIN <= rect.1 + bw <= i32::MAX
    &&& i32::MIN <= 2 * bw <= i32::MAX
    &&& i32::MIN <= rect.2 - 2 * bw <= i32::MAX
    &&& i32::MIN <= rect.3 - 2 * bw <= i32::MAX
}

/// Whether the rectangle inside a frame `bw` wide around `(x, y, width, height)` can be
/// computed in `i32` (see `inner_rect_fits`).
pub fn inner_rect_fits_in_i32(x: i32, y: i32, width: i32, height: i32, bw: i32) -> (r: bool)
    ensures
        r == inner_rect_fits((x, y, width, height), bw),
{
    let (x, y, w, h, b) = (x as i64, y as i64, width as i64, height as i64, bw as i64);
    let lo = i32::MIN as i64;
    let hi = i32::MAX as i64;
    lo <= x + b && x + b <= hi && lo <= y + b && y + b <= hi && lo <= 2 * b && 2 * b <= hi && lo
        <= w - 2 * b && w - 2 * b <= hi && lo <= h - 2 * b && h - 2 * b <= hi
}

pub open spec fn at_least_one(v: int) -> int {
    if v >= 1 {
        v
    } else {
        1
    }
}

/// The rectangle inside a frame of `bw` around `rect`: moved in by `bw` on each side, and
/// at least one pixel wide and high.
pub open spec fn inner_rect_of(rect: (i32, i32, i32, i32), bw: i32) -> (int, int, int, int) {
    (rect.0 + bw, rect.1 + bw, at_least_one(rect.2 - 2 * bw), at_least_one(rect.3 - 2 * bw))
}

/// `v`, or 1 where `v` is smaller.
pub fn max_one(v: i32) -> (r: i32)
    ensures
        r == at_least_one(v as int),
{
    if v >= 1 {
        v
    } else {
        1
    }
}

/// Whether the frame is being dragged or resized. This build draws no frame, so it never is.
pub fn is_border_interacting() -> (r: bool)
    ensures
        !r,
{
    false
}

/// Whether the border windows may be seen by screen capture tools. This build draws no
/// windows, so the flag is not kept.
pub fn set_allow_screen_capture(allow: bool) {
}

/// Registers what runs when a drag or resize of the frame ends. This build draws no frame,
/// so the callback is never run and is not kept.
pub fn set_border_interaction_complete_callback<F: Fn(i32, i32, i32, i32)>(callback: F) {
}

/// Registers what runs while the frame is dragged. This build draws no frame, so the
/// callback is never run and is not kept.
pub fn set_border_live_move_callback<F: Fn(i32, i32, i32, i32)>(callback: F) {
}

impl HollowBorder {
    /// A border around `(x, y, width, height)` with a frame `border_width` wide.
    pub fn new(x: i32, y: i32, width: i32, height: i32, border_width: i32, border_color: u32) -> (r:
        Option<HollowBorder>)
        ensures
            r matches Some(b) && b@.rect == (x, y, width, height) && b@.border_width == border_width,
    {
        Some(HollowBorder { rect: (x, y, width, height), border_width })
    }

    /// The outer rectangle `(x, y, width, height)`.
    pub fn get_rect(&self) -> (r: (i32, i32, i32, i32))
        ensures
            r == self@.rect,
    {
        self.rect
    }

    /// Whether the rectangle inside the frame can be computed in `i32` (see
    /// `inner_rect_fits`).
    pub fn inner_rect_computable(&self) -> (r: bool)
        ensures
            r == inner_rect_fits(self@.rect, self@.border_width),
    {
        let (x, y, w, h) = self.rect;
        inner_rect_fits_in_i32(x, y, w, h, self.border_width)
    }

    /// The rectangle inside the frame (see `inner_rect_of`).
    pub fn get_inner_rect(&self) -> (r: (i32, i32, i32, i32))
        requires
            inner_rect_fits(self@.rect, self@.border_width),
        ensures
            (r.0 as int, r.1 as int, r.2 as int, r.3 as int) == inner_rect_of(
                self@.rect,
                self@.border_width,
            ),
    {
        let (x, y, w, h) = self.rect;
        let bw = self.border_width;
        (x + bw, y + bw, max_one(w - 2 * bw), max_one(h - 2 * bw))
    }

    /// Moves and resizes the border; the frame's width stays.
    pub fn update_rect(&mut self, x: i32, y: i32, width: i32, height: i32)
        ensures
            final(self)@.rect == (x, y, width, height),
            final(self)@.border_width == old(self)@.border_width,
    {
        self.rect = (x, y, width, height);
    }

    /// Sets the frame's colour. This build draws nothing, so the border is unchanged.
    pub fn update_color(&self, color: u32) {
    }

    /// Sets the frame's width (its colour is not drawn in this build); the rectangle stays.
    pub fn update_style(&mut self, width: i32, color: u32)
        ensures
            final(self)@.rect == old(self)@.rect,
            final(self)@.border_width == width,
    {
        self.border_width = width;
    }

    /// Readies the frame for a drag that a shortcut started. This build draws no frame, so
    /// the border is unchanged.
    pub fn prime_interaction_from_shortcut(&self) {
    }

    /// Hides the frame. This build draws no frame, so the border is unchanged.
    pub fn hide_border(&self) {
    }

    /// Shows the frame. This build draws no frame, so the border is unchanged.
    pub fn show(&self) {
    }

    /// The native handle of the frame's window: 0, as this build has no window.
    pub fn hwnd_value(&self) -> (r: isize)
        ensures
            r == 0,
    {
        0
    }

    /// Lets clicks through the interior; only the frame drags. This build draws no frame, so
    /// the border is unchanged.
    pub fn set_capture_mode(&mut self)
        ensures
            final(self)@ == old(self)@,
    {
    }

    /// Lets the whole border be dragged. This build draws no frame, so the border is
    /// unchanged.
    pub fn set_preview_mode(&mut self)
        ensures
            final(self)@ == old(self)@,
    {
    }

    /// Stops the frame's window. This build has no window, so the border is unchanged.
    pub fn stop(&mut self)
        ensures
            final(self)@ == old(self)@,
    {
    }
}

} // verus!
