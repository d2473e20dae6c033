//! Geometry for centering a window on a monitor's work area.
use vstd::prelude::*;

verus! {

/// Axis-aligned rectangle in screen pixels (right and bottom exclusive).
#[derive(Debug, Clone, Copy, PartialEq, Eq, Structural)]
pub struct Rect {
    pub left: i32,
    pub top: i32,
    pub right: i32,
    pub bottom: i32,
}

/// Pixel tolerance when checking that a window landed where it was placed.
pub const VERIFY_TOLERANCE: i32 = 4;

/// Width and height of a rectangle fit in `i32`.
pub open spec fn extents_fit(r: Rect) -> bool {
    &&& i32::MIN <= r.right - r.left <= i32::MAX
    &&& i32::MIN <= r.bottom - r.top <= i32::MAX
}

/// Size of the span `[lo, hi)`, or 0 when it is empty.
pub open spec fn span(lo: i32, hi: i32) -> int {
    if hi - lo > 0 { hi - lo } else { 0 }
}

/// Start of a span of size `size` centred in `[lo, lo + avail)`.
pub open spec fn centered_start(lo: i32, avail: int, size: int) -> int {
    lo + (avail - size) / 2
}

/// The rectangle `window` gets when centred on `work`: its size clamped to the work
/// area, its position centred (rounding towards the top-left).
pub open spec fn centered(window: Rect, work: Rect) -> Rect {
    let ww = span(work.left, work.right);
    let wh = span(work.top, work.bottom);
    let width = if span(window.left, window.right) < ww { span(window.left, window.right) } else { ww };
    let height = if span(window.top, window.bottom) < wh { span(window.top, window.bottom) } else { wh };
    let left = centered_start(work.left, ww, width);
    let top = centered_start(work.top, wh, height);
    Rect { left: left as i32, top: top as i32, right: (left + width) as i32, bottom: (top + height) as i32 }
}

/// Compute a centred rectangle for `window` within `work`, clamping the window's size
/// to the work area when it does not fit.
pub fn centered_rect(window: Rect, work: Rect) -> (r: Rect)
    requires
        extents_fit(window),
        extents_fit(work),
    ensures
        r == centered(window, work),
        // the result has the clamped size and lies inside a non-empty work area
        r.right - r.left == (if span(window.left, window.right) < span(work.left, work.right) {
            span(window.left, window.right)
        } else {
            span(work.left, work.right)
        }),
        work.left <= r.left && r.right <= work.left + span(work.left, work.right),
        work.top <= r.top && r.bottom <= work.top + span(work.top, work.bottom),
        // centred: the margins on either side differ by at most one pixel
        0 <= (work.left + span(work.left, work.right) - r.right) - (r.left - work.left) <= 1,
        0 <= (work.top + span(work.top, work.bottom) - r.bottom) - (r.top - work.top) <= 1,
{
    let window_width = if window.right - window.left > 0 { window.right - window.left } else { 0 };
    let window_height = if window.bottom - window.top > 0 { window.bottom - window.top } else { 0 };
    let work_width = if work.right - work.left > 0 { work.right - work.left } else { 0 };
    let work_height = if work.bottom - work.top > 0 { work.bottom - work.top } else { 0 };

    let width = if window_width < work_width { window_width } else { work_width };
    let height = if window_height < work_height { window_height } else { work_height };

    let left = work.left + (work_width - width) / 2;
    let top = work.top + (work_height - height) / 2;

    Rect { left, top, right: left + width, bottom: top + height }
}

/// Centring is idempotent: a window already centred on a work area stays where it is.
pub proof fn lemma_centering_is_idempotent(window: Rect, work: Rect)
    requires
        extents_fit(window),
        extents_fit(work),
    ensures
        extents_fit(centered(window, work)),
        centered(centered(window, work), work) == centered(window, work),
{
    let ww = span(work.left, work.right);
    let wh = span(work.top, work.bottom);
    let width = if span(window.left, window.right) < ww { span(window.left, window.right) } else { ww };
    let height = if span(window.top, window.bottom) < wh { span(window.top, window.bottom) } else { wh };
    let left = centered_start(work.left, ww, width);
    let top = centered_start(work.top, wh, height);
    assert(0 <= width <= ww && 0 <= height <= wh);
    assert(work.left <= left && left + width <= work.left + ww);
    assert(work.top <= top && top + height <= work.top + wh);
    assert(ww == 0 || work.left + ww == work.right);
    assert(wh == 0 || work.top + wh == work.bottom);
    let c = centered(window, work);
    assert(c.left == left && c.right == left + width);
    assert(c.top == top && c.bottom == top + height);
    assert(span(c.left, c.right) == width);
    assert(span(c.top, c.bottom) == height);
}

/// Absolute difference of two coordinates.
pub open spec fn coord_gap(a: i32, b: i32) -> int {
    if a >= b { a - b } else { b - a }
}

/// Whether every edge of `a` is within `VERIFY_TOLERANCE` pixels of the same edge of `b`.
pub fn rects_close(a: Rect, b: Rect) -> (r: bool)
    ensures
        r == (coord_gap(a.left, b.left) <= VERIFY_TOLERANCE && coord_gap(a.top, b.top) <= VERIFY_TOLERANCE
            && coord_gap(a.right, b.right) <= VERIFY_TOLERANCE && coord_gap(a.bottom, b.bottom)
            <= VERIFY_TOLERANCE),
{
    close_coord(a.left, b.left) && close_coord(a.top, b.top) && close_coord(a.right, b.right)
        && close_coord(a.bottom, b.bottom)
}

fn close_coord(a: i32, b: i32) -> (r: bool)
    ensures
        r == (coord_gap(a, b) <= VERIFY_TOLERANCE),
{
    let d: i64 = a as i64 - b as i64;
    -(VERIFY_TOLERANCE as i64) <= d && d <= VERIFY_TOLERANCE as i64
}

} // verus!
