//! Integer geometry and text of what the label overlay paints over the grid: the letter
//! badge of each thumbnail, its glow, the number-tag badge, the application icon, and
//! the monitor-number chip shown while Shift is held.
use vstd::prelude::*;
use crate::state::OverlayState;
use crate::window_mover::Rect;

verus! {

/// Width of a letter badge.
pub const LETTER_BADGE_W: i32 = 36;
/// Height of a letter badge.
pub const LETTER_BADGE_H: i32 = 30;
/// Gap between a letter badge and the thumbnail's bottom-right corner.
pub const LETTER_BADGE_MARGIN: i32 = 8;
/// Corner size of the rounded letter badge.
pub const LETTER_BADGE_CORNER: i32 = 10;
/// Side of the round number-tag badge.
pub const TAG_BADGE_SIZE: i32 = 20;
/// Gap between the number-tag badge and the thumbnail's top-right corner.
pub const TAG_BADGE_MARGIN: i32 = 6;
/// Side of the application icon.
pub const ICON_SIZE: i32 = 32;
/// Gap between the icon and the thumbnail's top-left corner.
pub const ICON_MARGIN: i32 = 8;
/// Longest title shown in the quick list, in characters.
pub const QUICK_LIST_TITLE_CHARS: usize = 60;

/// The letter badge of a thumbnail whose bottom-right corner is `(right, bottom)`.
pub open spec fn letter_badge(right: int, bottom: int) -> Rect {
    Rect {
        left: (right - LETTER_BADGE_W - LETTER_BADGE_MARGIN) as i32,
        top: (bottom - LETTER_BADGE_H - LETTER_BADGE_MARGIN) as i32,
        right: (right - LETTER_BADGE_MARGIN) as i32,
        bottom: (bottom - LETTER_BADGE_MARGIN) as i32,
    }
}

/// Rectangle of the letter badge, in the bottom-right corner of the thumbnail.
pub fn letter_badge_rect(thumb_right: i32, thumb_bottom: i32) -> (r: Rect)
    requires
        thumb_right >= i32::MIN + LETTER_BADGE_W + LETTER_BADGE_MARGIN,
        thumb_bottom >= i32::MIN + LETTER_BADGE_H + LETTER_BADGE_MARGIN,
    ensures
        r == letter_badge(thumb_right as int, thumb_bottom as int),
        r.right - r.left == LETTER_BADGE_W,
        r.bottom - r.top == LETTER_BADGE_H,
{
    Rect {
        left: thumb_right - LETTER_BADGE_W - LETTER_BADGE_MARGIN,
        top: thumb_bottom - LETTER_BADGE_H - LETTER_BADGE_MARGIN,
        right: thumb_right - LETTER_BADGE_MARGIN,
        bottom: thumb_bottom - LETTER_BADGE_MARGIN,
    }
}

/// The glow drawn behind a letter badge: the badge grown by 4 pixels when selected and
/// by 2 otherwise, with its corner size grown by the same amount.
pub fn badge_glow(badge: Rect, selected: bool) -> (r: (Rect, i32))
    requires
        badge.left >= i32::MIN + 4 && badge.top >= i32::MIN + 4,
        badge.right <= i32::MAX - 4 && badge.bottom <= i32::MAX - 4,
    ensures
        ({
            let e: int = if selected { 4 } else { 2 };
            r.0 == (Rect {
                left: (badge.left - e) as i32,
                top: (badge.top - e) as i32,
                right: (badge.right + e) as i32,
                bottom: (badge.bottom + e) as i32,
            }) && r.1 == LETTER_BADGE_CORNER + e
        }),
{
    let e: i32 = if selected { 4 } else { 2 };
    (Rect { left: badge.left - e, top: badge.top - e, right: badge.right + e, bottom: badge.bottom + e },
        LETTER_BADGE_CORNER + e)
}

/// Rectangle of the round number-tag badge, in the top-right corner of the thumbnail.
pub fn tag_badge_rect(thumb_top: i32, thumb_right: i32) -> (r: Rect)
    requires
        thumb_right >= i32::MIN + TAG_BADGE_SIZE + TAG_BADGE_MARGIN,
        thumb_top <= i32::MAX - TAG_BADGE_SIZE - TAG_BADGE_MARGIN,
    ensures
        r == (Rect {
            left: (thumb_right - TAG_BADGE_SIZE - TAG_BADGE_MARGIN) as i32,
            top: (thumb_top + TAG_BADGE_MARGIN) as i32,
            right: (thumb_right - TAG_BADGE_MARGIN) as i32,
            bottom: (thumb_top + TAG_BADGE_MARGIN + TAG_BADGE_SIZE) as i32,
        }),
        r.right - r.left == TAG_BADGE_SIZE && r.bottom - r.top == TAG_BADGE_SIZE,
{
    Rect {
        left: thumb_right - TAG_BADGE_SIZE - TAG_BADGE_MARGIN,
        top: thumb_top + TAG_BADGE_MARGIN,
        right: thumb_right - TAG_BADGE_MARGIN,
        bottom: thumb_top + TAG_BADGE_MARGIN + TAG_BADGE_SIZE,
    }
}

/// Top-left corner of the application icon, inset from the thumbnail's top-left corner.
pub fn icon_origin(thumb_left: i32, thumb_top: i32) -> (r: (i32, i32))
    requires
        thumb_left <= i32::MAX - ICON_MARGIN,
        thumb_top <= i32::MAX - ICON_MARGIN,
    ensures
        r.0 == thumb_left + ICON_MARGIN && r.1 == thumb_top + ICON_MARGIN,
{
    (thumb_left + ICON_MARGIN, thumb_top + ICON_MARGIN)
}

/// Rectangle of the monitor-number chip in the top-left corner of a monitor, and the
/// corner size of its rounding.
pub fn monitor_chip_rect() -> (r: (Rect, i32))
    ensures
        r.0 == (Rect { left: 40, top: 40, right: 150, bottom: 136 }),
        r.1 == 20,
{
    let margin: i32 = 40;
    let chip_w: i32 = 110;
    let chip_h: i32 = 96;
    (Rect { left: margin, top: margin, right: margin + chip_w, bottom: margin + chip_h }, 20)
}

/// How an overlay window paints itself.
#[derive(Debug, Clone, Copy, PartialEq, Eq, Structural)]
pub enum PaintRoute {
    /// The label overlay while the grid is active: letter badges, icons, tags.
    Badges,
    /// The label overlay in label mode: a letter label over each window.
    LabelModeBadges,
    /// The label overlay in any other state: nothing but the transparent key colour.
    ClearOnly,
    /// The overlay of a secondary monitor while the grid is active: backdrop and the
    /// monitor-number chip (the number counts monitors from 1).
    SecondaryMonitor(usize),
    /// Leave painting to the system (the primary monitor's grid is drawn elsewhere).
    Default,
}

/// Paint route of an overlay window: `is_label_window` for the label overlay, else
/// `monitor_index` is the window's position among the per-monitor overlays, if found.
pub fn paint_route(is_label_window: bool, monitor_index: Option<usize>, state: &OverlayState) -> (r: PaintRoute)
    ensures
        r == (if is_label_window {
            if *state is Active {
                PaintRoute::Badges
            } else if *state is LabelMode {
                PaintRoute::LabelModeBadges
            } else {
                PaintRoute::ClearOnly
            }
        } else {
            match monitor_index {
                Some(i) => if *state is Active && i > 0 && i < usize::MAX {
                    PaintRoute::SecondaryMonitor((i + 1) as usize)
                } else {
                    PaintRoute::Default
                },
                None => PaintRoute::Default,
            }
        }),
{
    if is_label_window {
        match state {
            OverlayState::Active { .. } => PaintRoute::Badges,
            OverlayState::LabelMode { .. } => PaintRoute::LabelModeBadges,
            _ => PaintRoute::ClearOnly,
        }
    } else {
        match monitor_index {
            Some(i) => {
                if state.is_active() && i > 0 && i < usize::MAX {
                    PaintRoute::SecondaryMonitor(i + 1)
                } else {
                    PaintRoute::Default
                }
            },
            None => PaintRoute::Default,
        }
    }
}

/// The first `QUICK_LIST_TITLE_CHARS` characters of a title.
pub fn quick_list_title(title: &str) -> (r: String)
    ensures
        r@ == (if title@.len() > QUICK_LIST_TITLE_CHARS { title@.take(QUICK_LIST_TITLE_CHARS as int) } else { title@ }),
{
    let n = title.unicode_len();
    if n <= QUICK_LIST_TITLE_CHARS {
        return title.to_string();
    }
    let mut s = String::new();
    let mut i: usize = 0;
    while i < QUICK_LIST_TITLE_CHARS
        invariant
            n == title@.len(),
            n > QUICK_LIST_TITLE_CHARS,
            i <= QUICK_LIST_TITLE_CHARS,
            s@ == title@.take(i as int),
        decreases QUICK_LIST_TITLE_CHARS - i,
    {
        crate::text::push_char(&mut s, title.get_char(i));
        assert(title@.take(i + 1) =~= title@.take(i as int).push(title@[i as int]));
        i += 1;
    }
    s
}

/// Width of a label drawn over a window in label mode.
pub const LABEL_W: i64 = 36;
/// Height of a label drawn over a window in label mode.
pub const LABEL_H: i64 = 30;

/// Whether labels whose top-left corners are `a` and `b` overlap.
pub open spec fn labels_overlap(a: (i64, i64), b: (i64, i64)) -> bool {
    a.0 < b.0 + LABEL_W && b.0 < a.0 + LABEL_W && a.1 < b.1 + LABEL_H && b.1 < a.1 + LABEL_H
}

fn overlaps_exec(a: (i64, i64), b: (i64, i64)) -> (r: bool)
    requires
        -0x1_0000_0000_0000 < a.0 < 0x1_0000_0000_0000,
        -0x1_0000_0000_0000 < a.1 < 0x1_0000_0000_0000,
        -0x1_0000_0000_0000 < b.0 < 0x1_0000_0000_0000,
        -0x1_0000_0000_0000 < b.1 < 0x1_0000_0000_0000,
    ensures
        r == labels_overlap(a, b),
{
    a.0 < b.0 + LABEL_W && b.0 < a.0 + LABEL_W && a.1 < b.1 + LABEL_H && b.1 < a.1 + LABEL_H
}

/// Auto-nudge placement of label-mode labels: each label starts at its anchor and, while
/// it overlaps a label placed before it, moves to just below that label. Labels keep
/// their horizontal position and never move up, no two labels overlap, and a label
/// that overlaps no earlier one stays at its anchor.
pub fn nudge_labels(anchors: &[(i32, i32)]) -> (r: Vec<(i64, i64)>)
    requires
        anchors@.len() <= u32::MAX,
    ensures
        r@.len() == anchors@.len(),
        forall|i: int| 0 <= i < r@.len() ==> (#[trigger] r@[i]).0 == anchors@[i].0 && r@[i].1 >= anchors@[i].1,
        forall|i: int| 0 <= i < r@.len() ==> (#[trigger] r@[i]).1 == anchors@[i].1 || exists|j: int|
            0 <= j < i && r@[i].1 == (#[trigger] r@[j]).1 + LABEL_H,
        forall|i: int, j: int| 0 <= i < j < r@.len() ==> !labels_overlap(#[trigger] r@[i], #[trigger] r@[j]),
        forall|i: int| 0 <= i < r@.len() && (forall|j: int| 0 <= j < i ==> !labels_overlap(
            #[trigger] r@[j],
            (anchors@[i].0 as i64, anchors@[i].1 as i64),
        )) ==> r@[i] == (anchors@[i].0 as i64, anchors@[i].1 as i64),
{
    let n = anchors.len();
    let mut placed: Vec<(i64, i64)> = Vec::new();
    let mut i: usize = 0;
    while i < n
        invariant
            n == anchors@.len(),
            n <= u32::MAX,
            i <= n,
            placed@.len() == i,
            forall|k: int| 0 <= k < i ==> (#[trigger] placed@[k]).0 == anchors@[k].0 && placed@[k].1 >= anchors@[k].1
                && placed@[k].1 <= i32::MAX + (k + 1) * LABEL_H,
            forall|a: int, b: int| 0 <= a < b < i ==> !labels_overlap(#[trigger] placed@[a], #[trigger] placed@[b]),
            forall|k: int| 0 <= k < i ==> (#[trigger] placed@[k]).1 == anchors@[k].1 || exists|j: int|
                0 <= j < k && placed@[k].1 == (#[trigger] placed@[j]).1 + LABEL_H,
            forall|k: int| 0 <= k < i && (forall|j: int| 0 <= j < k ==> !labels_overlap(
                #[trigger] placed@[j],
                (anchors@[k].0 as i64, anchors@[k].1 as i64),
            )) ==> placed@[k] == (anchors@[k].0 as i64, anchors@[k].1 as i64),
        decreases n - i,
    {
        let x: i64 = anchors[i].0 as i64;
        let y0: i64 = anchors[i].1 as i64;
        let mut y: i64 = y0;
        let mut moved = false;
        loop
            invariant_except_break
                i < n,
                n <= u32::MAX,
                placed@.len() == i,
                forall|k: int| 0 <= k < i ==> (#[trigger] placed@[k]).0 == anchors@[k].0 && placed@[k].1 >= anchors@[k].1
                    && placed@[k].1 <= i32::MAX + (k + 1) * LABEL_H,
                x == anchors@[i as int].0,
                y0 == anchors@[i as int].1,
                y0 <= y <= i32::MAX + (i + 1) * LABEL_H,
                !moved ==> y == y0,
                moved ==> exists|j: int| 0 <= j < i && labels_overlap(#[trigger] placed@[j], (x, y0)),
                y == y0 || exists|j: int| 0 <= j < i && y == (#[trigger] placed@[j]).1 + LABEL_H,
            ensures
                y0 <= y <= i32::MAX + (i + 1) * LABEL_H,
                forall|j: int| 0 <= j < i ==> !labels_overlap(#[trigger] placed@[j], (x, y)),
                !moved ==> y == y0,
                moved ==> exists|j: int| 0 <= j < i && labels_overlap(#[trigger] placed@[j], (x, y0)),
                y == y0 || exists|j: int| 0 <= j < i && y == (#[trigger] placed@[j]).1 + LABEL_H,
            decreases i32::MAX + (i + 1) * LABEL_H - y,
        {
            let mut hit: Option<usize> = None;
            let mut j: usize = 0;
            while j < i
                invariant
                    j <= i,
                    i < n,
                    n <= u32::MAX,
                    placed@.len() == i,
                    forall|k: int| 0 <= k < i ==> (#[trigger] placed@[k]).0 == anchors@[k].0 && placed@[k].1 >= anchors@[k].1
                        && placed@[k].1 <= i32::MAX + (k + 1) * LABEL_H,
                    x == anchors@[i as int].0,
                    y0 <= y <= i32::MAX + (i + 1) * LABEL_H,
                    y0 == anchors@[i as int].1,
                    hit is None ==> forall|k: int| 0 <= k < j ==> !labels_overlap(#[trigger] placed@[k], (x, y)),
                    hit matches Some(h) ==> h < i && labels_overlap(placed@[h as int], (x, y)),
                decreases i - j,
            {
                if hit.is_none() && overlaps_exec(placed[j], (x, y)) {
                    hit = Some(j);
                }
                j += 1;
            }
            match hit {
                None => {
                    break;
                },
                Some(h) => {
                    proof {
                        if !moved {
                            assert(labels_overlap(placed@[h as int], (x, y0)));
                        }
                    }
                    y = placed[h].1 + LABEL_H;
                    moved = true;
                    assert(y == placed@[h as int].1 + LABEL_H);
                },
            }
        }
        proof {
            if forall|j: int| 0 <= j < i ==> !labels_overlap(#[trigger] placed@[j], (x, y0)) {
                assert(!moved);
            }
        }
        let ghost prev = placed@;
        placed.push((x, y));
        proof {
            assert forall|a: int, b: int| 0 <= a < b < i + 1 implies !labels_overlap(
                #[trigger] placed@[a],
                #[trigger] placed@[b],
            ) by {
                if b == i {
                    assert(placed@[a] == prev[a]);
                    assert(!labels_overlap(prev[a], (x, y)));
                } else {
                    assert(placed@[a] == prev[a] && placed@[b] == prev[b]);
                }
            }
            assert forall|k: int| 0 <= k < i + 1 implies (#[trigger] placed@[k]).1 == anchors@[k].1 || exists|j: int|
                0 <= j < k && placed@[k].1 == (#[trigger] placed@[j]).1 + LABEL_H by {
                if k < i {
                    assert(placed@[k] == prev[k]);
                    if placed@[k].1 != anchors@[k].1 {
                        let j = choose|j: int| 0 <= j < k && prev[k].1 == (#[trigger] prev[j]).1 + LABEL_H;
                        assert(placed@[j] == prev[j]);
                    }
                } else if y != y0 {
                    let j = choose|j: int| 0 <= j < i && y == (#[trigger] prev[j]).1 + LABEL_H;
                    assert(placed@[j] == prev[j]);
                }
            }
            assert forall|k: int| 0 <= k < i + 1 && (forall|j: int| 0 <= j < k ==> !labels_overlap(
                #[trigger] placed@[j],
                (anchors@[k].0 as i64, anchors@[k].1 as i64),
            )) implies placed@[k] == (anchors@[k].0 as i64, anchors@[k].1 as i64) by {
                if k == i {
                    assert forall|j: int| 0 <= j < i implies !labels_overlap(#[trigger] prev[j], (x, y0)) by {
                        assert(placed@[j] == prev[j]);
                    }
                } else {
                    assert forall|j: int| 0 <= j < k implies !labels_overlap(
                        #[trigger] prev[j],
                        (anchors@[k].0 as i64, anchors@[k].1 as i64),
                    ) by {
                        assert(placed@[j] == prev[j]);
                    }
                }
            }
        }
        i += 1;
    }
    placed
}

} // verus!
