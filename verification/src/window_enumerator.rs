//! The computing part of window enumeration: the Alt+Tab filter, exclusion of the
//! overlay's own windows, MRU ordering of the snapshot, and the occlusion test of
//! label mode.
use vstd::prelude::*;
use crate::letter_assignment::{assign_letters, letter_for_index, with_letter};
use crate::mru_tracker::{is_stable_mru_sort, MruTracker};
use crate::state::{slice_contains, SessionTags};
use crate::window_info::WindowInfo;
use crate::window_mover::Rect;

verus! {

/// A non-empty axis-aligned rectangle (right and bottom exclusive) used for occlusion tests.
#[derive(Debug, Clone, Copy)]
pub struct SimpleRect {
    left: i32,
    top: i32,
    right: i32,
    bottom: i32,
}

/// Whether the point `(x, y)` lies in the rectangle `(left, top, right, bottom)`.
pub open spec fn covers(r: (int, int, int, int), x: int, y: int) -> bool {
    r.0 <= x < r.2 && r.1 <= y < r.3
}

/// Whether some piece covers `(x, y)`.
pub open spec fn pieces_cover(pieces: Seq<SimpleRect>, x: int, y: int) -> bool {
    exists|i: int| 0 <= i < pieces.len() && covers(#[trigger] pieces[i]@, x, y)
}

impl View for SimpleRect {
    type V = (int, int, int, int);

    closed spec fn view(&self) -> (int, int, int, int) {
        (self.left as int, self.top as int, self.right as int, self.bottom as int)
    }
}

impl SimpleRect {
    #[verifier::type_invariant]
    spec fn non_empty(self) -> bool {
        self.left < self.right && self.top < self.bottom
    }

    /// Non-empty rectangle with the bounds of `r`; `None` when `r` is empty.
    pub fn from_rect(r: &Rect) -> (res: Option<SimpleRect>)
        ensures
            match res {
                Some(sr) => sr@ == (r.left as int, r.top as int, r.right as int, r.bottom as int) && is_proper(sr@),
                None => !(r.left < r.right && r.top < r.bottom),
            },
    {
        if r.right <= r.left || r.bottom <= r.top {
            None
        } else {
            Some(SimpleRect { left: r.left, top: r.top, right: r.right, bottom: r.bottom })
        }
    }

    /// Whether the two rectangles share at least one point.
    pub fn intersects(&self, other: &Self) -> (res: bool)
        ensures
            res == (self@.0 < other@.2 && self@.2 > other@.0 && self@.1 < other@.3 && self@.3 > other@.1),
            res <==> exists|x: int, y: int| covers(self@, x, y) && covers(other@, x, y),
    {
        let res = self.left < other.right && self.right > other.left && self.top < other.bottom
            && self.bottom > other.top;
        proof {
            use_type_invariant(self);
            use_type_invariant(other);
            if res {
                let x = if self.left > other.left { self.left as int } else { other.left as int };
                let y = if self.top > other.top { self.top as int } else { other.top as int };
                assert(covers(self@, x, y) && covers(other@, x, y));
            }
        }
        res
    }

    /// Subtract `other` from `self`: at most four pairwise disjoint non-empty pieces
    /// that together cover exactly the points of `self` outside `other`; namely the
    /// strips of `self` above and below the intersection, then the parts left and right
    /// of it between those strips (`self` itself when they do not intersect).
    pub fn subtract(&self, other: &Self) -> (pieces: Vec<Self>)
        ensures
            pieces@.map_values(|p: SimpleRect| p@) == subtraction_pieces(self@, other@),
            pieces@.len() <= 4,
            forall|i: int| 0 <= i < pieces@.len() ==> is_proper(#[trigger] pieces@[i]@),
            forall|i: int, j: int, x: int, y: int| 0 <= i < j < pieces@.len() ==>
                !(#[trigger] covers(pieces@[i]@, x, y) && #[trigger] covers(pieces@[j]@, x, y)),
            forall|x: int, y: int| #[trigger] pieces_cover(pieces@, x, y) <==> covers(self@, x, y) && !covers(other@, x, y),
    {
        proof {
            use_type_invariant(self);
            use_type_invariant(other);
        }
        if !self.intersects(other) {
            let pieces = vec![*self];
            proof {
                assert forall|x: int, y: int| #[trigger] pieces_cover(pieces@, x, y) <==> covers(self@, x, y)
                    && !covers(other@, x, y) by {
                    if covers(self@, x, y) {
                        assert(covers(pieces@[0]@, x, y));
                    }
                }
            }
            return pieces;
        }
        let ix_left = if self.left > other.left { self.left } else { other.left };
        let ix_top = if self.top > other.top { self.top } else { other.top };
        let ix_right = if self.right < other.right { self.right } else { other.right };
        let ix_bottom = if self.bottom < other.bottom { self.bottom } else { other.bottom };

        let mut pieces: Vec<SimpleRect> = Vec::new();
        // Top strip (above the intersection).
        if ix_top > self.top {
            pieces.push(SimpleRect { left: self.left, top: self.top, right: self.right, bottom: ix_top });
        }
        // Bottom strip (below the intersection).
        if ix_bottom < self.bottom {
            pieces.push(SimpleRect { left: self.left, top: ix_bottom, right: self.right, bottom: self.bottom });
        }
        // Left strip (between the top and bottom strips).
        if ix_left > self.left {
            pieces.push(SimpleRect { left: self.left, top: ix_top, right: ix_left, bottom: ix_bottom });
        }
        // Right strip (between the top and bottom strips).
        if ix_right < self.right {
            pieces.push(SimpleRect { left: ix_right, top: ix_top, right: self.right, bottom: ix_bottom });
        }
        proof {
            assert forall|x: int, y: int| #[trigger] pieces_cover(pieces@, x, y) <==> covers(self@, x, y)
                && !covers(other@, x, y) by {
                if covers(self@, x, y) && !covers(other@, x, y) {
                    if y < ix_top {
                        assert(covers(pieces@[0]@, x, y));
                    } else if y >= ix_bottom {
                        let k = if ix_top > self.top { 1int } else { 0int };
                        assert(covers(pieces@[k]@, x, y));
                    } else if x < ix_left {
                        let k = (if ix_top > self.top { 1int } else { 0int }) + (if ix_bottom < self.bottom { 1int } else { 0int });
                        assert(covers(pieces@[k]@, x, y));
                    } else {
                        let k = (if ix_top > self.top { 1int } else { 0int }) + (if ix_bottom < self.bottom { 1int } else { 0int })
                            + (if ix_left > self.left { 1int } else { 0int });
                        assert(covers(pieces@[k]@, x, y));
                    }
                }
            }
        }
        pieces
    }
}

/// The pieces of `a` outside `b` as `subtract` lists them.
pub open spec fn subtraction_pieces(a: (int, int, int, int), b: (int, int, int, int)) -> Seq<(int, int, int, int)> {
    if !(a.0 < b.2 && a.2 > b.0 && a.1 < b.3 && a.3 > b.1) {
        seq![a]
    } else {
        let ix_left = if a.0 > b.0 { a.0 } else { b.0 };
        let ix_top = if a.1 > b.1 { a.1 } else { b.1 };
        let ix_right = if a.2 < b.2 { a.2 } else { b.2 };
        let ix_bottom = if a.3 < b.3 { a.3 } else { b.3 };
        (if ix_top > a.1 { seq![(a.0, a.1, a.2, ix_top)] } else { seq![] })
            + (if ix_bottom < a.3 { seq![(a.0, ix_bottom, a.2, a.3)] } else { seq![] })
            + (if ix_left > a.0 { seq![(a.0, ix_top, ix_left, ix_bottom)] } else { seq![] })
            + (if ix_right < a.2 { seq![(ix_right, ix_top, a.2, ix_bottom)] } else { seq![] })
    }
}

/// Whether a rectangle view is non-empty.
pub open spec fn is_proper(r: (int, int, int, int)) -> bool {
    r.0 < r.2 && r.1 < r.3
}

/// A window in the Z-order snapshot (front to back) with its on-screen rectangle.
#[derive(Debug, Clone, Copy)]
pub struct ZOrderEntry {
    pub hwnd: isize,
    pub rect: SimpleRect,
}

/// Whether one of the first `count` entries of the Z-order covers `(x, y)`.
pub open spec fn covered_by_first(z_order: Seq<ZOrderEntry>, count: int, x: int, y: int) -> bool {
    exists|k: int| 0 <= k < count && #[trigger] covers(z_order[k].rect@, x, y)
}

/// Position of the first Z-order entry of `hwnd`, if any.
pub open spec fn is_first_position(z_order: Seq<ZOrderEntry>, hwnd: isize, pos: int) -> bool {
    0 <= pos < z_order.len() && z_order[pos].hwnd == hwnd
        && forall|j: int| 0 <= j < pos ==> (#[trigger] z_order[j]).hwnd != hwnd
}

/// The window appears in the Z-order and every point of `rect` is covered by some
/// window strictly above its (first) position.
pub open spec fn fully_occluded(hwnd: isize, rect: (int, int, int, int), z_order: Seq<ZOrderEntry>) -> bool {
    exists|pos: int| #[trigger] is_first_position(z_order, hwnd, pos)
        && forall|x: int, y: int| covers(rect, x, y) ==> #[trigger] covered_by_first(z_order, pos, x, y)
}

/// `subtraction_pieces` of each rectangle of `ps` with `occ`, concatenated in order.
pub open spec fn subtract_all(ps: Seq<(int, int, int, int)>, occ: (int, int, int, int)) -> Seq<(int, int, int, int)>
    decreases ps.len(),
{
    if ps.len() == 0 {
        seq![]
    } else {
        subtract_all(ps.drop_last(), occ) + subtraction_pieces(ps.last(), occ)
    }
}

/// The pieces of `cand` left after subtracting the first `count` windows of the
/// Z-order one after the other.
pub open spec fn uncovered_after(cand: (int, int, int, int), z_order: Seq<ZOrderEntry>, count: nat) -> Seq<
    (int, int, int, int),
>
    decreases count,
{
    if count == 0 {
        seq![cand]
    } else {
        subtract_all(uncovered_after(cand, z_order, (count - 1) as nat), z_order[count - 1].rect@)
    }
}

proof fn lemma_subtract_all_empty(occ: (int, int, int, int))
    ensures
        subtract_all(seq![], occ) == Seq::<(int, int, int, int)>::empty(),
{
}

/// Once nothing is left, nothing comes back.
proof fn lemma_uncovered_stays_empty(cand: (int, int, int, int), z_order: Seq<ZOrderEntry>, k: nat, n: nat)
    requires
        k <= n,
        uncovered_after(cand, z_order, k).len() == 0,
    ensures
        uncovered_after(cand, z_order, n).len() == 0,
    decreases n - k,
{
    if k < n {
        assert(uncovered_after(cand, z_order, k) =~= seq![]);
        lemma_subtract_all_empty(z_order[k as int].rect@);
        assert(uncovered_after(cand, z_order, k + 1) =~= seq![]);
        lemma_uncovered_stays_empty(cand, z_order, k + 1, n);
    }
}

/// The parts of `cand` not covered by the first `count` windows of the Z-order: at
/// most a few non-empty rectangles that together hold exactly those points.
fn uncovered_pieces(cand: SimpleRect, z_order: &[ZOrderEntry], count: usize) -> (r: Vec<SimpleRect>)
    requires
        count <= z_order@.len(),
    ensures
        r@.map_values(|p: SimpleRect| p@) == uncovered_after(cand@, z_order@, count as nat),
        forall|k: int| 0 <= k < r@.len() ==> is_proper(#[trigger] r@[k]@),
        forall|x: int, y: int| #[trigger] pieces_cover(r@, x, y) <==> covers(cand@, x, y)
            && !covered_by_first(z_order@, count as int, x, y),
{
    proof { use_type_invariant(&cand); }
    let mut uncovered: Vec<SimpleRect> = vec![cand];
    let mut i: usize = 0;
    assert(uncovered@.map_values(|p: SimpleRect| p@) =~= uncovered_after(cand@, z_order@, 0));
    assert forall|x: int, y: int| #[trigger] pieces_cover(uncovered@, x, y) <==> covers(cand@, x, y)
        && !covered_by_first(z_order@, 0, x, y) by {
        if covers(cand@, x, y) {
            assert(covers(uncovered@[0]@, x, y));
        }
    }
    while i < count && uncovered.len() > 0
        invariant
            i <= count,
            count <= z_order@.len(),
            uncovered@.map_values(|p: SimpleRect| p@) == uncovered_after(cand@, z_order@, i as nat),
            forall|k: int| 0 <= k < uncovered@.len() ==> is_proper(#[trigger] uncovered@[k]@),
            forall|x: int, y: int| #[trigger] pieces_cover(uncovered@, x, y) <==> covers(cand@, x, y)
                && !covered_by_first(z_order@, i as int, x, y),
        decreases count - i,
    {
        let occ = z_order[i].rect;
        proof { use_type_invariant(&occ); }
        let mut next: Vec<SimpleRect> = Vec::new();
        let mut m: usize = 0;
        while m < uncovered.len()
            invariant
                m <= uncovered@.len(),
                occ@ == z_order@[i as int].rect@,
                next@.map_values(|p: SimpleRect| p@) == subtract_all(
                    uncovered@.map_values(|p: SimpleRect| p@).take(m as int),
                    occ@,
                ),
                forall|k: int| 0 <= k < next@.len() ==> is_proper(#[trigger] next@[k]@),
                forall|x: int, y: int| #[trigger] pieces_cover(next@, x, y) <==> (exists|j: int|
                    0 <= j < m && #[trigger] covers(uncovered@[j]@, x, y)) && !covers(occ@, x, y),
            decreases uncovered@.len() - m,
        {
            let mut pieces = uncovered[m].subtract(&occ);
            let ghost prev = next@;
            let ghost ps = pieces@;
            next.append(&mut pieces);
            assert(next@ =~= prev + ps);
            proof {
                let uv = uncovered@.map_values(|p: SimpleRect| p@);
                assert(uv.take(m + 1).drop_last() =~= uv.take(m as int));
                assert(uv.take(m + 1).last() == uncovered@[m as int]@);
                assert(next@.map_values(|p: SimpleRect| p@) =~= prev.map_values(|p: SimpleRect| p@) + ps.map_values(
                    |p: SimpleRect| p@,
                ));
            }
            assert forall|k: int| 0 <= k < next@.len() implies is_proper(#[trigger] next@[k]@) by {
                if k >= prev.len() {
                    assert(next@[k] == ps[k - prev.len()]);
                }
            }
            assert forall|x: int, y: int| #[trigger] pieces_cover(next@, x, y) <==> (exists|j: int|
                0 <= j < m + 1 && #[trigger] covers(uncovered@[j]@, x, y)) && !covers(occ@, x, y) by {
                if pieces_cover(next@, x, y) {
                    let k = choose|k: int| 0 <= k < next@.len() && covers(#[trigger] next@[k]@, x, y);
                    if k < prev.len() {
                        assert(covers(prev[k]@, x, y));
                        assert(pieces_cover(prev, x, y));
                    } else {
                        assert(covers(ps[k - prev.len()]@, x, y));
                        assert(pieces_cover(ps, x, y));
                        assert(covers(uncovered@[m as int]@, x, y));
                    }
                }
                if (exists|j: int| 0 <= j < m + 1 && #[trigger] covers(uncovered@[j]@, x, y)) && !covers(occ@, x, y) {
                    let j = choose|j: int| 0 <= j < m + 1 && #[trigger] covers(uncovered@[j]@, x, y);
                    if j < m {
                        assert(pieces_cover(prev, x, y));
                        let k = choose|k: int| 0 <= k < prev.len() && covers(#[trigger] prev[k]@, x, y);
                        assert(covers(next@[k]@, x, y));
                    } else {
                        assert(pieces_cover(ps, x, y));
                        let k = choose|k: int| 0 <= k < ps.len() && covers(#[trigger] ps[k]@, x, y);
                        assert(covers(next@[prev.len() + k]@, x, y));
                    }
                }
            }
            m += 1;
        }
        proof {
            assert forall|x: int, y: int| #[trigger] pieces_cover(next@, x, y) <==> covers(cand@, x, y)
                && !covered_by_first(z_order@, i + 1, x, y) by {
                if pieces_cover(next@, x, y) {
                    let j = choose|j: int| 0 <= j < m && #[trigger] covers(uncovered@[j]@, x, y);
                    assert(pieces_cover(uncovered@, x, y));
                    if covered_by_first(z_order@, i + 1, x, y) {
                        let k = choose|k: int| 0 <= k < i + 1 && #[trigger] covers(z_order@[k].rect@, x, y);
                        if k < i {
                            assert(covered_by_first(z_order@, i as int, x, y));
                        }
                    }
                }
                if covers(cand@, x, y) && !covered_by_first(z_order@, i + 1, x, y) {
                    assert(!covers(z_order@[i as int].rect@, x, y));
                    assert forall|k: int| 0 <= k < i implies !#[trigger] covers(z_order@[k].rect@, x, y) by {
                        assert(!covered_by_first(z_order@, i + 1, x, y));
                    }
                    assert(pieces_cover(uncovered@, x, y));
                    let j = choose|j: int| 0 <= j < uncovered@.len() && covers(#[trigger] uncovered@[j]@, x, y);
                    assert(covers(uncovered@[j]@, x, y));
                }
            }
        }
        proof {
            let uv = uncovered@.map_values(|p: SimpleRect| p@);
            assert(uv.take(m as int) =~= uv);
            assert(next@.map_values(|p: SimpleRect| p@) == uncovered_after(cand@, z_order@, (i + 1) as nat));
        }
        uncovered = next;
        i += 1;
    }
    proof {
        if i < count {
            assert(uncovered@.map_values(|p: SimpleRect| p@).len() == 0);
            lemma_uncovered_stays_empty(cand@, z_order@, i as nat, count as nat);
            assert(uncovered@.map_values(|p: SimpleRect| p@) =~= uncovered_after(cand@, z_order@, count as nat));
        }
        if uncovered@.len() == 0 {
            assert forall|x: int, y: int| covers(cand@, x, y) implies #[trigger] covered_by_first(
                z_order@,
                count as int,
                x,
                y,
            ) by {
                assert(!pieces_cover(uncovered@, x, y));
                let k = choose|k: int| 0 <= k < i && #[trigger] covers(z_order@[k].rect@, x, y);
                assert(covers(z_order@[k].rect@, x, y));
            }
        }
        assert forall|x: int, y: int| #[trigger] pieces_cover(uncovered@, x, y) <==> covers(cand@, x, y)
            && !covered_by_first(z_order@, count as int, x, y) by {
            if uncovered@.len() != 0 {
                assert(i == count);
            } else {
                if covers(cand@, x, y) {
                    assert(covered_by_first(z_order@, count as int, x, y));
                }
            }
        }
    }
    uncovered
}

/// Position of the first Z-order entry of `hwnd`, or the length of the Z-order when
/// the window is not in it.
fn first_position(hwnd: isize, z_order: &[ZOrderEntry]) -> (pos: usize)
    ensures
        pos <= z_order@.len(),
        forall|j: int| 0 <= j < pos ==> (#[trigger] z_order@[j]).hwnd != hwnd,
        pos < z_order@.len() ==> z_order@[pos as int].hwnd == hwnd,
{
    let mut pos: usize = 0;
    while pos < z_order.len() && z_order[pos].hwnd != hwnd
        invariant
            pos <= z_order@.len(),
            forall|j: int| 0 <= j < pos ==> (#[trigger] z_order@[j]).hwnd != hwnd,
        decreases z_order@.len() - pos,
    {
        pos += 1;
    }
    pos
}

/// Returns `true` if the candidate is fully covered by the windows strictly above it in
/// Z-order (earlier in `z_order`); a window missing from `z_order` counts as visible.
pub fn is_fully_occluded(candidate_hwnd: isize, candidate_rect: SimpleRect, z_order: &[ZOrderEntry]) -> (r: bool)
    ensures
        r == fully_occluded(candidate_hwnd, candidate_rect@, z_order@),
{
    proof { use_type_invariant(&candidate_rect); }
    let pos = first_position(candidate_hwnd, z_order);
    if pos == z_order.len() {
        assert forall|p: int| !#[trigger] is_first_position(z_order@, candidate_hwnd, p) by {
            if is_first_position(z_order@, candidate_hwnd, p) {
                assert(z_order@[p].hwnd != candidate_hwnd);
            }
        }
        return false;
    }
    assert(is_first_position(z_order@, candidate_hwnd, pos as int));
    let ghost cand = candidate_rect@;
    let uncovered = uncovered_pieces(candidate_rect, z_order, pos);
    let r = uncovered.len() == 0;
    proof {
        let p = pos as int;
        if r {
            assert forall|x: int, y: int| covers(cand, x, y) implies #[trigger] covered_by_first(z_order@, p, x, y) by {
                assert(!pieces_cover(uncovered@, x, y));
            }
            assert(is_first_position(z_order@, candidate_hwnd, p));
        } else {
            let q = uncovered@[0]@;
            assert(is_proper(q));
            assert(covers(q, q.0, q.1));
            assert(pieces_cover(uncovered@, q.0, q.1));
            assert forall|pp: int| #[trigger] is_first_position(z_order@, candidate_hwnd, pp) implies
                !(forall|x: int, y: int| covers(cand, x, y) ==> #[trigger] covered_by_first(z_order@, pp, x, y)) by {
                if pp < p {
                    assert(z_order@[pp].hwnd != candidate_hwnd);
                } else if pp > p {
                    assert(z_order@[p].hwnd != candidate_hwnd);
                }
                assert(!covered_by_first(z_order@, pp, q.0, q.1));
            }
        }
    }
    r
}

/// The label anchor of a window: the top-left corner of the first piece of `rect`
/// left uncovered by the windows above the window's first Z-order position, or the
/// top-left corner of `rect` when the window is not in the Z-order or nothing is left.
pub open spec fn label_anchor_point(hwnd: isize, rect: (int, int, int, int), z_order: Seq<ZOrderEntry>) -> (int, int) {
    if exists|p: int| #[trigger] is_first_position(z_order, hwnd, p) {
        let p = choose|p: int| #[trigger] is_first_position(z_order, hwnd, p);
        let left = uncovered_after(rect, z_order, p as nat);
        if left.len() > 0 {
            (left[0].0, left[0].1)
        } else {
            (rect.0, rect.1)
        }
    } else {
        (rect.0, rect.1)
    }
}

/// Where label mode anchors the label of a window so that it lands on a visible part:
/// the top-left corner of the first uncovered piece of the window (below the windows
/// above it in Z-order), or the window's own top-left corner when nothing above covers
/// it or when it is covered completely.
pub fn visible_anchor(hwnd: isize, rect: SimpleRect, z_order: &[ZOrderEntry]) -> (r: (i32, i32))
    ensures
        (r.0 as int, r.1 as int) == label_anchor_point(hwnd, rect@, z_order@),
        covers(rect@, r.0 as int, r.1 as int),
        forall|p: int| #[trigger] is_first_position(z_order@, hwnd, p) && !fully_occluded(hwnd, rect@, z_order@)
            ==> !covered_by_first(z_order@, p, r.0 as int, r.1 as int),
{
    proof { use_type_invariant(&rect); }
    let pos = first_position(hwnd, z_order);
    if pos == z_order.len() {
        proof {
            assert forall|p: int| !#[trigger] is_first_position(z_order@, hwnd, p) by {
                if is_first_position(z_order@, hwnd, p) {
                    assert(z_order@[p].hwnd != hwnd);
                }
            }
        }
        return (rect.left, rect.top);
    }
    let pieces = uncovered_pieces(rect, z_order, pos);
    if pieces.len() == 0 {
        proof {
            assert forall|x: int, y: int| covers(rect@, x, y) implies #[trigger] covered_by_first(z_order@, pos as int, x, y) by {
                assert(!pieces_cover(pieces@, x, y));
            }
            assert(is_first_position(z_order@, hwnd, pos as int));
            assert(fully_occluded(hwnd, rect@, z_order@));
            assert forall|p: int| #[trigger] is_first_position(z_order@, hwnd, p) implies p == pos by {
                if p < pos {
                    assert(z_order@[p].hwnd != hwnd);
                } else if p > pos {
                    assert(z_order@[pos as int].hwnd != hwnd);
                }
            }
            assert(pieces@.map_values(|q: SimpleRect| q@).len() == 0);
        }
        return (rect.left, rect.top);
    }
    let first = pieces[0];
    proof {
        use_type_invariant(&first);
        assert(covers(first@, first@.0, first@.1));
        assert(pieces_cover(pieces@, first@.0, first@.1));
        assert forall|p: int| #[trigger] is_first_position(z_order@, hwnd, p) implies p == pos by {
            if p < pos {
                assert(z_order@[p].hwnd != hwnd);
            } else if p > pos {
                assert(z_order@[pos as int].hwnd != hwnd);
            }
        }
        assert(is_first_position(z_order@, hwnd, pos as int));
        assert(pieces@.map_values(|q: SimpleRect| q@)[0] == first@);
    }
    (first.left, first.top)
}

/// Extended window style: tool window (kept out of Alt+Tab).
pub const WS_EX_TOOLWINDOW: u32 = 0x0000_0080;
/// Extended window style: forces a top-level window into the taskbar and Alt+Tab.
pub const WS_EX_APPWINDOW: u32 = 0x0004_0000;

/// The Alt+Tab heuristic: visible, titled, not cloaked, and not a tool window unless
/// it is also marked as an app window.
pub open spec fn alt_tab_visible(visible: bool, title_len: usize, ex_style: u32, cloaked: bool) -> bool {
    &&& visible
    &&& title_len != 0
    &&& !((ex_style & WS_EX_TOOLWINDOW) != 0 && (ex_style & WS_EX_APPWINDOW) == 0)
    &&& !cloaked
}

/// The extended-style part of the Alt+Tab filter drops only tool windows
/// (`WS_EX_TOOLWINDOW`, 0x80) that are not app windows (`WS_EX_APPWINDOW`, 0x40000): a
/// visible, titled, uncloaked window without the tool bit always passes, setting the
/// app-window bit never makes a passing window fail, and invisible, untitled or cloaked
/// windows never pass.
pub proof fn lemma_alt_tab_filter_drops_only_tool_windows(visible: bool, title_len: usize, ex_style: u32, cloaked: bool)
    ensures
        visible && title_len > 0 && !cloaked && ex_style & 0x80u32 == 0 ==> alt_tab_visible(
            visible,
            title_len,
            ex_style,
            cloaked,
        ),
        alt_tab_visible(visible, title_len, ex_style, cloaked) ==> alt_tab_visible(
            visible,
            title_len,
            ex_style | 0x40000u32,
            cloaked,
        ),
        visible && title_len > 0 && !cloaked ==> alt_tab_visible(visible, title_len, ex_style | 0x40000u32, cloaked),
        ex_style & 0x80u32 != 0 && ex_style & 0x40000u32 == 0 ==> !alt_tab_visible(
            visible,
            title_len,
            ex_style,
            cloaked,
        ),
        !visible || title_len == 0 || cloaked ==> !alt_tab_visible(visible, title_len, ex_style, cloaked),
{
    let e2 = ex_style | 0x40000u32;
    assert(e2 & 0x40000u32 != 0) by (bit_vector)
        requires
            e2 == ex_style | 0x40000u32,
    ;
}

/// Whether a window with these properties passes the Alt+Tab filter.
pub fn passes_alt_tab_filter_mock(visible: bool, title_len: usize, ex_style: u32, cloaked: bool) -> (r: bool)
    ensures
        r == alt_tab_visible(visible, title_len, ex_style, cloaked),
{
    if !visible {
        return false;
    }
    if title_len == 0 {
        return false;
    }
    let is_tool = (ex_style & WS_EX_TOOLWINDOW) != 0;
    let is_app = (ex_style & WS_EX_APPWINDOW) != 0;
    if is_tool && !is_app {
        return false;
    }
    if cloaked {
        return false;
    }
    true
}

/// The windows of `ws`, in order, that are neither in `own` nor in `overlays`.
pub open spec fn without_own_windows(ws: Seq<WindowInfo>, own: Seq<isize>, overlays: Seq<isize>) -> Seq<WindowInfo>
    decreases ws.len(),
{
    if ws.len() == 0 {
        ws
    } else {
        let prev = without_own_windows(ws.drop_last(), own, overlays);
        if !own.contains(ws.last().hwnd) && !overlays.contains(ws.last().hwnd) {
            prev.push(ws.last())
        } else {
            prev
        }
    }
}

/// Excluding the application's windows keeps exactly the other windows: no kept window
/// is one of `own` or `overlays`, every window of `ws` that is neither is kept, nothing
/// is kept that `ws` does not hold, and the result is never longer than `ws`.
pub proof fn lemma_without_own_windows_keeps_exactly_the_others(
    ws: Seq<WindowInfo>,
    own: Seq<isize>,
    overlays: Seq<isize>,
)
    ensures
        without_own_windows(ws, own, overlays).len() <= ws.len(),
        forall|i: int| 0 <= i < without_own_windows(ws, own, overlays).len() ==> {
            let w = #[trigger] without_own_windows(ws, own, overlays)[i];
            &&& !own.contains(w.hwnd)
            &&& !overlays.contains(w.hwnd)
            &&& ws.contains(w)
        },
        forall|i: int| 0 <= i < ws.len() && !own.contains(#[trigger] ws[i].hwnd) && !overlays.contains(ws[i].hwnd)
            ==> without_own_windows(ws, own, overlays).contains(ws[i]),
    decreases ws.len(),
{
    if ws.len() > 0 {
        let init = ws.drop_last();
        lemma_without_own_windows_keeps_exactly_the_others(init, own, overlays);
        let prev = without_own_windows(init, own, overlays);
        let res = without_own_windows(ws, own, overlays);
        assert forall|i: int| 0 <= i < res.len() implies {
            let w = #[trigger] res[i];
            &&& !own.contains(w.hwnd)
            &&& !overlays.contains(w.hwnd)
            &&& ws.contains(w)
        } by {
            if i < prev.len() {
                assert(res[i] == prev[i]);
                let k = choose|k: int| 0 <= k < init.len() && init[k] == prev[i];
                assert(ws[k] == init[k]);
            } else {
                assert(res[i] == ws.last());
                assert(ws[ws.len() - 1] == ws.last());
            }
        }
        assert forall|i: int| 0 <= i < ws.len() && !own.contains(#[trigger] ws[i].hwnd) && !overlays.contains(
            ws[i].hwnd,
        ) implies res.contains(ws[i]) by {
            if i < ws.len() - 1 {
                assert(init[i] == ws[i]);
                assert(prev.contains(init[i]));
                let k = choose|k: int| 0 <= k < prev.len() && prev[k] == init[i];
                assert(res[k] == prev[k]);
            } else {
                assert(res[res.len() - 1] == ws.last());
            }
        }
    }
}

/// Drop the application's own windows (`own`) and its registered overlay windows
/// (`overlays`) from an enumeration result, keeping the order of the rest.
pub fn exclude_own_windows(windows: Vec<WindowInfo>, own: &[isize], overlays: &[isize]) -> (r: Vec<WindowInfo>)
    ensures
        r@ == without_own_windows(windows@, own@, overlays@),
{
    let ghost ws = windows@;
    let mut src = windows;
    let n = src.len();
    let mut out: Vec<WindowInfo> = Vec::new();
    let mut i: usize = 0;
    while i < n
        invariant
            n == ws.len(),
            i <= n,
            src@ == ws.skip(i as int),
            out@ == without_own_windows(ws.take(i as int), own@, overlays@),
        decreases n - i,
    {
        let w = src.remove(0);
        assert(w == ws[i as int]);
        assert(ws.take(i + 1).drop_last() =~= ws.take(i as int));
        assert(ws.take(i + 1).last() == w);
        if !slice_contains(own, w.hwnd) && !slice_contains(overlays, w.hwnd) {
            out.push(w);
        }
        assert(src@ =~= ws.skip(i + 1));
        i += 1;
    }
    assert(ws.take(n as int) =~= ws);
    out
}

/// Whether label mode keeps a window: minimized windows stay (they remain selectable),
/// windows without a readable rectangle go, and the rest stay unless fully occluded.
pub open spec fn label_mode_keeps(w: WindowInfo, rect: Option<Rect>, z_order: Seq<ZOrderEntry>) -> bool {
    if w.is_minimized {
        true
    } else {
        match rect {
            Some(r) => r.left < r.right && r.top < r.bottom && !fully_occluded(
                w.hwnd,
                (r.left as int, r.top as int, r.right as int, r.bottom as int),
                z_order,
            ),
            None => false,
        }
    }
}

/// The windows of `ws`, in order, that label mode keeps (`rects[i]` is the current
/// rectangle of `ws[i]`, `None` when it could not be read).
pub open spec fn label_mode_kept(ws: Seq<WindowInfo>, rects: Seq<Option<Rect>>, z_order: Seq<ZOrderEntry>) -> Seq<
    WindowInfo,
>
    decreases ws.len(),
{
    if ws.len() == 0 {
        ws
    } else {
        let prev = label_mode_kept(ws.drop_last(), rects.drop_last(), z_order);
        if label_mode_keeps(ws.last(), rects.last(), z_order) {
            prev.push(ws.last())
        } else {
            prev
        }
    }
}

/// Remove fully occluded windows from a label mode snapshot and re-assign letters.
///
/// `rects[i]` is the current rectangle of `windows[i]` (`None` when it could not be
/// read); `z_order` lists the visible, non-minimized windows front to back.
pub fn filter_occluded_for_label_mode(
    windows: Vec<WindowInfo>,
    rects: &[Option<Rect>],
    z_order: &[ZOrderEntry],
) -> (r: Vec<WindowInfo>)
    requires
        rects@.len() == windows@.len(),
    ensures
        r@.len() == label_mode_kept(windows@, rects@, z_order@).len(),
        forall|i: int| 0 <= i < r@.len() ==> #[trigger] r@[i] == with_letter(
            label_mode_kept(windows@, rects@, z_order@)[i],
            letter_for_index(i),
        ),
{
    let ghost ws = windows@;
    let mut src = windows;
    let n = src.len();
    let mut out: Vec<WindowInfo> = Vec::new();
    let mut i: usize = 0;
    while i < n
        invariant
            n == ws.len(),
            n == rects@.len(),
            i <= n,
            src@ == ws.skip(i as int),
            out@ == label_mode_kept(ws.take(i as int), rects@.take(i as int), z_order@),
        decreases n - i,
    {
        let w = src.remove(0);
        assert(w == ws[i as int]);
        assert(ws.take(i + 1).drop_last() =~= ws.take(i as int));
        assert(rects@.take(i + 1).drop_last() =~= rects@.take(i as int));
        assert(ws.take(i + 1).last() == w);
        assert(rects@.take(i + 1).last() == rects@[i as int]);
        let keep = if w.is_minimized {
            true
        } else {
            match &rects[i] {
                Some(r) => match SimpleRect::from_rect(r) {
                    Some(sr) => !is_fully_occluded(w.hwnd, sr, z_order),
                    None => false,
                },
                None => false,
            }
        };
        if keep {
            out.push(w);
        }
        assert(src@ =~= ws.skip(i + 1));
        i += 1;
    }
    assert(ws.take(n as int) =~= ws);
    assert(rects@.take(n as int) =~= rects@);
    assign_letters(&mut out);
    out
}

/// Whether `w.number_tag` agrees with the tag store: the lowest tag number that points
/// at `w`, or none when no tag points at it.
pub open spec fn number_tag_consistent(tags: Map<u8, isize>, w: WindowInfo) -> bool {
    match w.number_tag {
        Some(n) => tags.contains_key(n) && tags[n] == w.hwnd
            && forall|m: u8| m < n && #[trigger] tags.contains_key(m) ==> tags[m] != w.hwnd,
        None => forall|n: u8| #[trigger] tags.contains_key(n) ==> tags[n] != w.hwnd,
    }
}

/// `unsorted` reordered by `perm`.
pub open spec fn permuted(unsorted: Seq<WindowInfo>, perm: Seq<int>) -> Seq<WindowInfo> {
    Seq::new(perm.len(), |i: int| unsorted[perm[i]])
}

/// Order an enumerated snapshot for display: sort it by MRU order, assign letters in
/// that order, and re-apply the session's number tags.
pub fn order_and_label_snapshot(windows: &mut Vec<WindowInfo>, mru_tracker: &MruTracker, session_tags: &SessionTags)
    ensures
        final(windows)@.len() == old(windows)@.len(),
        exists|perm: Seq<int>| #![trigger permuted(old(windows)@, perm)]
            is_stable_mru_sort(mru_tracker@, old(windows)@, permuted(old(windows)@, perm), perm)
            && forall|i: int| 0 <= i < final(windows)@.len() ==> {
                &&& (#[trigger] final(windows)@[i]) == (WindowInfo {
                    letter: letter_for_index(i),
                    number_tag: final(windows)@[i].number_tag,
                    ..old(windows)@[perm[i]]
                })
                &&& number_tag_consistent(session_tags@, final(windows)@[i])
            },
{
    let ghost unsorted = windows@;
    mru_tracker.sort_by_mru(windows);
    let ghost sorted = windows@;
    assign_letters(windows);
    let ghost lettered = windows@;
    let n = windows.len();
    let mut i: usize = 0;
    while i < n
        invariant
            n == windows@.len(),
            n == lettered.len(),
            i <= n,
            forall|j: int| i <= j < n ==> #[trigger] windows@[j] == lettered[j],
            forall|j: int| 0 <= j < i ==> #[trigger] windows@[j] == (WindowInfo {
                number_tag: windows@[j].number_tag,
                ..lettered[j]
            }) && number_tag_consistent(session_tags@, windows@[j]),
        decreases n - i,
    {
        let tag = session_tags.get_tag_for_hwnd(windows[i].hwnd);
        windows[i].number_tag = tag;
        i += 1;
    }
    proof {
        let perm = choose|perm: Seq<int>| is_stable_mru_sort(mru_tracker@, unsorted, sorted, perm);
        assert(sorted =~= permuted(unsorted, perm));
        assert forall|i: int| 0 <= i < windows@.len() implies {
            &&& (#[trigger] windows@[i]) == (WindowInfo {
                letter: letter_for_index(i),
                number_tag: windows@[i].number_tag,
                ..unsorted[perm[i]]
            })
            &&& number_tag_consistent(session_tags@, windows@[i])
        } by {
            assert(lettered[i] == with_letter(sorted[i], letter_for_index(i)));
            assert(sorted[i] == unsorted[perm[i]]);
        }
    }
}

} // verus!
