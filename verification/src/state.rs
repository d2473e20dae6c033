//! Overlay interaction state machine and the session-only number tag store.
use vstd::prelude::*;

verus! {

/// The overlay interaction state machine.
#[derive(Debug, Clone, Copy, PartialEq, Eq, Structural)]
pub enum OverlayState {
    /// Overlay is hidden; the app is idle in the tray.
    Hidden,
    /// Overlay is animating in. Accepts dismiss but not selection.
    FadingIn,
    /// Overlay is visible and accepting input.
    Active {
        /// Index of the highlighted window in the snapshot, if any.
        selected: Option<usize>,
    },
    /// Overlay is animating out. No input accepted.
    FadingOut {
        /// The window to focus after the fade-out completes, if any.
        switch_target: Option<isize>,
    },
    /// Label mode: letters drawn over the windows themselves.
    LabelMode {
        /// Index of the highlighted window in the snapshot, if any.
        selected: Option<usize>,
    },
}

impl OverlayState {
    /// Anything but `Hidden` is on screen.
    pub fn is_visible(&self) -> (r: bool)
        ensures
            r == !(*self is Hidden),
    {
        match self {
            OverlayState::Hidden => false,
            _ => true,
        }
    }

    /// Only the `Active` state accepts selection input.
    pub fn is_active(&self) -> (r: bool)
        ensures
            r == (*self is Active),
    {
        match self {
            OverlayState::Active { .. } => true,
            _ => false,
        }
    }

    /// The highlighted window while `Active`; `None` in every other state.
    pub fn selected_index(&self) -> (r: Option<usize>)
        ensures
            r == (match *self {
                OverlayState::Active { selected } => selected,
                _ => None,
            }),
    {
        match self {
            OverlayState::Active { selected } => *selected,
            _ => None,
        }
    }
}

/// Number of distinct tag numbers (every `u8`).
pub const TAG_SLOTS: usize = 256;

/// Session-only number tag store: maps a tag number to a window handle.
/// Persists across overlay show/hide cycles within one process session.
pub struct SessionTags {
    /// Slot `n` holds the window tagged with number `n`.
    slots: Vec<Option<isize>>,
}

impl View for SessionTags {
    type V = Map<u8, isize>;

    closed spec fn view(&self) -> Map<u8, isize> {
        Map::new(|n: u8| self.slots@[n as int] is Some, |n: u8| self.slots@[n as int]->0)
    }
}

/// `tags` without the entries that point at `hwnd`.
pub open spec fn without_window(tags: Map<u8, isize>, hwnd: isize) -> Map<u8, isize> {
    Map::new(|n: u8| tags.contains_key(n) && tags[n] != hwnd, |n: u8| tags[n])
}

/// `tags` without the entries that point at any window of `closed`.
pub open spec fn without_windows(tags: Map<u8, isize>, closed: Seq<isize>) -> Map<u8, isize> {
    Map::new(|n: u8| tags.contains_key(n) && !closed.contains(tags[n]), |n: u8| tags[n])
}

/// Tag assignments in increasing tag order, as `(number, window)` pairs.
pub open spec fn sorted_tag_list(m: Map<u8, isize>, l: Seq<(u8, isize)>) -> bool {
    &&& forall|i: int| 0 <= i < l.len() ==> m.contains_key(#[trigger] l[i].0) && m[l[i].0] == l[i].1
    &&& forall|i: int, j: int| 0 <= i < j < l.len() ==> (#[trigger] l[i]).0 < (#[trigger] l[j]).0
    &&& forall|n: u8| m.contains_key(n) ==> exists|i: int| 0 <= i < l.len() && (#[trigger] l[i]).0 == n
}

impl SessionTags {
    #[verifier::type_invariant]
    spec fn slots_cover_tags(self) -> bool {
        self.slots@.len() == TAG_SLOTS
    }

    /// An empty store.
    pub fn new() -> (r: Self)
        ensures
            r@ == Map::<u8, isize>::empty(),
    {
        let mut slots: Vec<Option<isize>> = Vec::new();
        let mut i: usize = 0;
        while i < TAG_SLOTS
            invariant
                i <= TAG_SLOTS,
                slots@.len() == i,
                forall|j: int| 0 <= j < i ==> #[trigger] slots@[j] is None,
            decreases TAG_SLOTS - i,
        {
            slots.push(None);
            i += 1;
        }
        let r = SessionTags { slots };
        assert(r@ =~= Map::<u8, isize>::empty());
        r
    }

    /// Assign a tag number to a window; any prior window holding this number loses it.
    pub fn assign(&mut self, number: u8, hwnd: isize)
        ensures
            final(self)@ == old(self)@.insert(number, hwnd),
    {
        proof { use_type_invariant(&*self); }
        self.slots[number as usize] = Some(hwnd);
        assert(self@ =~= old(self)@.insert(number, hwnd));
    }

    /// The window tagged with `number`, if assigned.
    pub fn get(&self, number: u8) -> (r: Option<isize>)
        ensures
            r == (if self@.contains_key(number) { Some(self@[number]) } else { None }),
    {
        proof { use_type_invariant(self); }
        self.slots[number as usize]
    }

    /// The lowest tag number assigned to `hwnd`, if any.
    pub fn get_tag_for_hwnd(&self, hwnd: isize) -> (r: Option<u8>)
        ensures
            match r {
                Some(n) => self@.contains_key(n) && self@[n] == hwnd
                    && forall|m: u8| m < n && #[trigger] self@.contains_key(m) ==> self@[m] != hwnd,
                None => forall|n: u8| #[trigger] self@.contains_key(n) ==> self@[n] != hwnd,
            },
    {
        proof { use_type_invariant(self); }
        let mut i: usize = 0;
        while i < TAG_SLOTS
            invariant
                i <= TAG_SLOTS,
                self.slots@.len() == TAG_SLOTS,
                forall|n: u8| n < i && #[trigger] self@.contains_key(n) ==> self@[n] != hwnd,
            decreases TAG_SLOTS - i,
        {
            if self.slots[i] == Some(hwnd) {
                let n = i as u8;
                assert(self@.contains_key(n));
                return Some(n);
            }
            i += 1;
        }
        None
    }

    /// Drop every tag whose window is in `closed` (windows that no longer exist).
    pub fn release_closed(&mut self, closed: &[isize])
        ensures
            final(self)@ == without_windows(old(self)@, closed@),
    {
        proof { use_type_invariant(&*self); }
        let mut i: usize = 0;
        while i < TAG_SLOTS
            invariant
                i <= TAG_SLOTS,
                self.slots@.len() == TAG_SLOTS,
                old(self).slots@.len() == TAG_SLOTS,
                forall|j: int| i <= j < TAG_SLOTS ==> #[trigger] self.slots@[j] == old(self).slots@[j],
                forall|j: int| 0 <= j < i ==> #[trigger] self.slots@[j] == (match old(self).slots@[j] {
                    Some(h) => if closed@.contains(h) { None } else { Some(h) },
                    None => None,
                }),
            decreases TAG_SLOTS - i,
        {
            match self.slots[i] {
                Some(h) => {
                    if slice_contains(closed, h) {
                        self.slots[i] = None;
                    }
                },
                None => {},
            }
            i += 1;
        }
        assert(self@ =~= without_windows(old(self)@, closed@));
    }

    /// Remove every tag pointing at `hwnd`.
    pub fn remove_by_hwnd(&mut self, hwnd: isize)
        ensures
            final(self)@ == without_window(old(self)@, hwnd),
    {
        proof { use_type_invariant(&*self); }
        let mut i: usize = 0;
        while i < TAG_SLOTS
            invariant
                i <= TAG_SLOTS,
                self.slots@.len() == TAG_SLOTS,
                old(self).slots@.len() == TAG_SLOTS,
                forall|j: int| i <= j < TAG_SLOTS ==> #[trigger] self.slots@[j] == old(self).slots@[j],
                forall|j: int| 0 <= j < i ==> #[trigger] self.slots@[j] == (if old(self).slots@[j] == Some(hwnd) {
                    None
                } else {
                    old(self).slots@[j]
                }),
            decreases TAG_SLOTS - i,
        {
            if self.slots[i] == Some(hwnd) {
                self.slots[i] = None;
            }
            i += 1;
        }
        assert(self@ =~= without_window(old(self)@, hwnd));
    }

    /// All tag assignments, sorted by tag number.
    pub fn all_tags(&self) -> (r: Vec<(u8, isize)>)
        ensures
            sorted_tag_list(self@, r@),
    {
        proof { use_type_invariant(self); }
        let mut r: Vec<(u8, isize)> = Vec::new();
        let mut i: usize = 0;
        while i < TAG_SLOTS
            invariant
                i <= TAG_SLOTS,
                self.slots@.len() == TAG_SLOTS,
                forall|k: int| 0 <= k < r@.len() ==> self@.contains_key(#[trigger] r@[k].0)
                    && self@[r@[k].0] == r@[k].1 && r@[k].0 < i,
                forall|k: int, l: int| 0 <= k < l < r@.len() ==> (#[trigger] r@[k]).0 < (#[trigger] r@[l]).0,
                forall|n: u8| n < i && self@.contains_key(n) ==> exists|k: int| 0 <= k < r@.len() && (#[trigger] r@[k]).0 == n,
            decreases TAG_SLOTS - i,
        {
            let ghost prev = r@;
            match self.slots[i] {
                Some(h) => {
                    let n = i as u8;
                    assert(self@.contains_key(n));
                    r.push((n, h));
                    assert(r@[r@.len() - 1].0 == n);
                },
                None => {},
            }
            assert forall|n: u8| n < i + 1 && self@.contains_key(n) implies exists|k: int|
                0 <= k < r@.len() && (#[trigger] r@[k]).0 == n by {
                if n < i {
                    let k = choose|k: int| 0 <= k < prev.len() && (#[trigger] prev[k]).0 == n;
                    assert(r@[k] == prev[k]);
                } else {
                    assert(r@[r@.len() - 1].0 == n);
                }
            }
            i += 1;
        }
        r
    }
}

/// Read after write: after `assign(number, hwnd)`, `get(number)` gives `hwnd` and every
/// other number keeps its window. `remove_by_hwnd(hwnd)` afterwards leaves no tag on
/// `hwnd` and gives the store it would have had without the assignment, except that
/// `number` stays free (the assignment took it from its previous holder).
pub proof fn lemma_assign_then_remove(tags: Map<u8, isize>, number: u8, hwnd: isize)
    ensures
        tags.insert(number, hwnd).contains_key(number),
        tags.insert(number, hwnd)[number] == hwnd,
        forall|n: u8| n != number ==> (#[trigger] tags.insert(number, hwnd).contains_key(n)) == tags.contains_key(n)
            && (tags.contains_key(n) ==> tags.insert(number, hwnd)[n] == tags[n]),
        forall|n: u8| #[trigger] without_window(tags.insert(number, hwnd), hwnd).contains_key(n)
            ==> without_window(tags.insert(number, hwnd), hwnd)[n] != hwnd,
        without_window(tags.insert(number, hwnd), hwnd) == without_window(tags, hwnd).remove(number),
{
    assert(without_window(tags.insert(number, hwnd), hwnd) =~= without_window(tags, hwnd).remove(number));
}

/// Releasing the same closed windows twice is the same as releasing them once, and a
/// released store holds no tag on a closed window.
pub proof fn lemma_release_closed_idempotent(tags: Map<u8, isize>, closed: Seq<isize>)
    ensures
        without_windows(without_windows(tags, closed), closed) == without_windows(tags, closed),
        forall|n: u8| #[trigger] without_windows(tags, closed).contains_key(n)
            ==> !closed.contains(without_windows(tags, closed)[n]),
{
    assert(without_windows(without_windows(tags, closed), closed) =~= without_windows(tags, closed));
}

/// Whether `x` occurs in `s`.
pub fn slice_contains(s: &[isize], x: isize) -> (r: bool)
    ensures
        r == s@.contains(x),
{
    let mut i: usize = 0;
    while i < s.len()
        invariant
            i <= s@.len(),
            forall|j: int| 0 <= j < i ==> s@[j] != x,
        decreases s@.len() - i,
    {
        if s[i] == x {
            assert(s@[i as int] == x);
            return true;
        }
        i += 1;
    }
    false
}

impl Default for SessionTags {
    fn default() -> (r: Self)
        ensures
            r@ == Map::<u8, isize>::empty(),
    {
        Self::new()
    }
}

} // verus!
