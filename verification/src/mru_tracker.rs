//! Most-recently-used ordering of window handles.
//!
//! The foreground-change notifications that feed it come from the OS; this type
//! only keeps the order and sorts snapshots by it.
use vstd::prelude::*;
use crate::window_info::WindowInfo;

verus! {

/// Maximum number of entries in the MRU list.
pub const MRU_MAX_SIZE: usize = 100;

/// Window handles ordered from most recent (index 0) to least recent.
pub struct MruTracker {
    order: Vec<isize>,
}

impl View for MruTracker {
    type V = Seq<isize>;

    closed spec fn view(&self) -> Seq<isize> {
        self.order@
    }
}

/// The MRU list after `hwnd` comes to the foreground: `hwnd` first, then the
/// previous order without `hwnd`, cut to `MRU_MAX_SIZE` entries.
pub open spec fn moved_to_front(order: Seq<isize>, hwnd: isize) -> Seq<isize> {
    let full = seq![hwnd] + order.filter(other_than(hwnd));
    if full.len() > MRU_MAX_SIZE {
        full.take(MRU_MAX_SIZE as int)
    } else {
        full
    }
}

/// The predicate "is a handle other than `hwnd`".
pub open spec fn other_than(hwnd: isize) -> spec_fn(isize) -> bool {
    |h: isize| h != hwnd
}

/// Sort key of a window handle: its MRU position, or `usize::MAX` when untracked.
pub open spec fn mru_rank(order: Seq<isize>, hwnd: isize) -> int {
    if order.contains(hwnd) {
        order.index_of(hwnd)
    } else {
        usize::MAX as int
    }
}

/// `sorted` is `unsorted` reordered by `perm` (a permutation of its indices),
/// ascending by MRU rank, with windows of equal rank kept in their input order.
pub open spec fn is_stable_mru_sort(
    order: Seq<isize>,
    unsorted: Seq<WindowInfo>,
    sorted: Seq<WindowInfo>,
    perm: Seq<int>,
) -> bool {
    &&& sorted.len() == unsorted.len()
    &&& perm.len() == unsorted.len()
    &&& forall|i: int| 0 <= i < perm.len() ==> 0 <= #[trigger] perm[i] < unsorted.len()
    &&& forall|i: int, j: int| 0 <= i < j < perm.len() ==> #[trigger] perm[i] != #[trigger] perm[j]
    &&& forall|i: int| 0 <= i < sorted.len() ==> #[trigger] sorted[i] == unsorted[perm[i]]
    &&& forall|i: int, j: int| 0 <= i < j < sorted.len() ==> mru_rank(order, (#[trigger] sorted[i]).hwnd)
        <= mru_rank(order, (#[trigger] sorted[j]).hwnd)
    &&& forall|i: int, j: int| 0 <= i < j < sorted.len() && mru_rank(order, (#[trigger] sorted[i]).hwnd)
        == mru_rank(order, (#[trigger] sorted[j]).hwnd) ==> perm[i] < perm[j]
}

impl MruTracker {
    #[verifier::type_invariant]
    spec fn well_formed(self) -> bool {
        &&& self.order@.no_duplicates()
        &&& self.order@.len() <= MRU_MAX_SIZE
    }

    /// An empty tracker.
    pub fn new() -> (r: Self)
        ensures
            r@ == Seq::<isize>::empty(),
    {
        MruTracker { order: Vec::new() }
    }

    /// Move `hwnd` to the front of the MRU list.
    pub fn on_foreground_change(&mut self, hwnd: isize)
        ensures
            final(self)@ == moved_to_front(old(self)@, hwnd),
            final(self)@.no_duplicates(),
            final(self)@.len() <= MRU_MAX_SIZE,
    {
        proof { use_type_invariant(&*self); }
        let ghost old_order = self.order@;
        let ghost pred = other_than(hwnd);
        let mut next: Vec<isize> = Vec::new();
        next.push(hwnd);
        let n = self.order.len();
        let mut i: usize = 0;
        while i < n
            invariant
                pred == other_than(hwnd),
                n == old_order.len(),
                self.order@ == old_order,
                old_order.no_duplicates(),
                i <= n,
                next@ == seq![hwnd] + old_order.take(i as int).filter(pred),
                next@.no_duplicates(),
                forall|x: isize| next@.contains(x) ==> x == hwnd || old_order.take(i as int).contains(x),
            decreases n - i,
        {
            let h = self.order[i];
            let ghost prev = next@;
            proof {
                reveal(Seq::filter);
                let s1 = old_order.take(i + 1);
                assert(s1.len() > 0);
                assert(s1.filter(pred) == (if pred(s1.last()) {
                    s1.drop_last().filter(pred).push(s1.last())
                } else {
                    s1.drop_last().filter(pred)
                }));
                assert(s1.drop_last() =~= old_order.take(i as int));
                assert(s1.last() == h);
                assert(pred(h) == (h != hwnd));
                assert(old_order.take(i + 1).filter(pred) == (if h != hwnd {
                    old_order.take(i as int).filter(pred).push(h)
                } else {
                    old_order.take(i as int).filter(pred)
                }));
            }
            if h != hwnd {
                assert(!old_order.take(i as int).contains(h)) by {
                    if old_order.take(i as int).contains(h) {
                        let k = choose|k: int| 0 <= k < i && old_order.take(i as int)[k] == h;
                        assert(old_order[k] == old_order[i as int]);
                    }
                }
                assert(!prev.contains(h));
                next.push(h);
                assert(next@ =~= prev.push(h));
                assert(next@ =~= seq![hwnd] + old_order.take(i + 1).filter(pred));
                assert forall|a: int, b: int| 0 <= a < next@.len() && 0 <= b < next@.len() && a != b
                    implies next@[a] != next@[b] by {
                    if a == prev.len() {
                        assert(prev.contains(prev[b]));
                    } else if b == prev.len() {
                        assert(prev.contains(prev[a]));
                    }
                }
                assert forall|x: isize| next@.contains(x) implies x == hwnd || old_order.take(i + 1).contains(x) by {
                    if x != h && x != hwnd {
                        let k0 = choose|k0: int| 0 <= k0 < next@.len() && next@[k0] == x;
                        assert(prev[k0] == x);
                        assert(prev.contains(x));
                        let k = choose|k: int| 0 <= k < i && old_order.take(i as int)[k] == x;
                        assert(old_order.take(i + 1)[k] == x);
                    } else if x == h {
                        assert(old_order.take(i + 1)[i as int] == x);
                    }
                }
            } else {
                assert(next@ =~= seq![hwnd] + old_order.take(i + 1).filter(pred));
                assert forall|x: isize| next@.contains(x) implies x == hwnd || old_order.take(i + 1).contains(x) by {
                    if x != hwnd {
                        let k = choose|k: int| 0 <= k < i && old_order.take(i as int)[k] == x;
                        assert(old_order.take(i + 1)[k] == x);
                    }
                }
            }
            i += 1;
        }
        assert(old_order.take(n as int) =~= old_order);
        next.truncate(MRU_MAX_SIZE);
        assert(next@ =~= moved_to_front(old_order, hwnd));
        assert(next@.no_duplicates());
        self.order = next;
        proof { use_type_invariant(&*self); }
    }

    /// The current MRU order, most recent first.
    pub fn get_order(&self) -> (r: &[isize])
        ensures
            r@ == self@,
            r@.no_duplicates(),
            r@.len() <= MRU_MAX_SIZE,
    {
        proof { use_type_invariant(self); }
        self.order.as_slice()
    }

    /// MRU position of `hwnd`, or `usize::MAX` when it is not tracked.
    fn rank_of(&self, hwnd: isize) -> (r: usize)
        ensures
            r == mru_rank(self@, hwnd),
    {
        proof { use_type_invariant(self); }
        let mut i: usize = 0;
        while i < self.order.len()
            invariant
                i <= self.order@.len(),
                self.order@.no_duplicates(),
                forall|k: int| 0 <= k < i ==> self.order@[k] != hwnd,
            decreases self.order@.len() - i,
        {
            if self.order[i] == hwnd {
                assert(self.order@.contains(hwnd));
                let ghost j = self.order@.index_of(hwnd);
                assert(self.order@[j] == hwnd);
                assert(j == i);
                return i;
            }
            i += 1;
        }
        usize::MAX
    }

    /// Sort a window list by MRU order (stable). Windows not in the MRU list keep
    /// their relative order and go after all tracked windows.
    pub fn sort_by_mru(&self, windows: &mut Vec<WindowInfo>)
        ensures
            exists|perm: Seq<int>| is_stable_mru_sort(self@, old(windows)@, final(windows)@, perm),
    {
        let ghost unsorted = windows@;
        let mut src: Vec<WindowInfo> = Vec::new();
        std::mem::swap(windows, &mut src);
        let n = src.len();
        let mut sorted: Vec<WindowInfo> = Vec::new();
        let mut keys: Vec<usize> = Vec::new();
        let ghost mut perm: Seq<int> = Seq::empty();
        let mut j: usize = n;
        while j > 0
            invariant
                n == unsorted.len(),
                j <= n,
                src@ == unsorted.take(j as int),
                sorted@.len() == n - j,
                keys@.len() == sorted@.len(),
                perm.len() == sorted@.len(),
                forall|a: int| 0 <= a < keys@.len() ==> #[trigger] keys@[a] == mru_rank(self@, sorted@[a].hwnd),
                forall|a: int| 0 <= a < perm.len() ==> j <= #[trigger] perm[a] < n,
                forall|a: int, b: int| 0 <= a < b < perm.len() ==> #[trigger] perm[a] != #[trigger] perm[b],
                forall|a: int| 0 <= a < sorted@.len() ==> #[trigger] sorted@[a] == unsorted[perm[a]],
                forall|a: int, b: int| 0 <= a < b < keys@.len() ==> #[trigger] keys@[a] <= #[trigger] keys@[b],
                forall|a: int, b: int| 0 <= a < b < keys@.len() && #[trigger] keys@[a] == #[trigger] keys@[b]
                    ==> perm[a] < perm[b],
            decreases j,
        {
            let w = src.pop().unwrap();
            assert(w == unsorted[j - 1]);
            let k = self.rank_of(w.hwnd);
            // first position whose key is not below k
            let mut p: usize = 0;
            while p < keys.len() && keys[p] < k
                invariant
                    p <= keys@.len(),
                    forall|a: int| 0 <= a < p ==> #[trigger] keys@[a] < k,
                decreases keys@.len() - p,
            {
                p += 1;
            }
            let ghost old_keys = keys@;
            let ghost old_perm = perm;
            let ghost old_sorted = sorted@;
            sorted.insert(p, w);
            keys.insert(p, k);
            proof {
                perm = perm.insert(p as int, j - 1);
                assert forall|a: int, b: int| 0 <= a < b < keys@.len() implies #[trigger] keys@[a] <= #[trigger] keys@[b] by {
                    if a < p && b == p {
                    } else if a < p && b > p {
                        assert(keys@[b] == old_keys[b - 1]);
                        assert(old_keys[b - 1] >= k || b - 1 < p);
                    } else if a == p && b > p {
                        assert(keys@[b] == old_keys[b - 1]);
                    } else if a > p {
                        assert(keys@[a] == old_keys[a - 1]);
                        assert(keys@[b] == old_keys[b - 1]);
                    } else {
                        assert(keys@[a] == old_keys[a]);
                        assert(keys@[b] == old_keys[b]);
                    }
                }
                assert forall|a: int, b: int| 0 <= a < b < keys@.len() && #[trigger] keys@[a] == #[trigger] keys@[b]
                    implies perm[a] < perm[b] by {
                    if a < p && b == p {
                    } else if a < p && b > p {
                        assert(keys@[b] == old_keys[b - 1]);
                    } else if a == p && b > p {
                        assert(perm[b] == old_perm[b - 1]);
                    } else if a > p {
                        assert(keys@[a] == old_keys[a - 1]);
                        assert(keys@[b] == old_keys[b - 1]);
                    } else {
                        assert(keys@[a] == old_keys[a]);
                        assert(keys@[b] == old_keys[b]);
                    }
                }
                assert forall|a: int| 0 <= a < perm.len() implies j - 1 <= #[trigger] perm[a] < n by {
                    if a > p {
                        assert(perm[a] == old_perm[a - 1]);
                    } else if a < p {
                        assert(perm[a] == old_perm[a]);
                    }
                }
                assert forall|a: int, b: int| 0 <= a < b < perm.len() implies #[trigger] perm[a] != #[trigger] perm[b] by {
                    if a < p && b > p {
                        assert(perm[b] == old_perm[b - 1]);
                    } else if a > p {
                        assert(perm[a] == old_perm[a - 1]);
                        assert(perm[b] == old_perm[b - 1]);
                    } else if a == p {
                        assert(perm[b] == old_perm[b - 1]);
                    } else if b == p {
                    } else {
                        assert(perm[a] == old_perm[a]);
                    }
                }
                assert forall|a: int| 0 <= a < sorted@.len() implies #[trigger] sorted@[a] == unsorted[perm[a]] by {
                    if a > p {
                        assert(sorted@[a] == old_sorted[a - 1]);
                    } else if a < p {
                        assert(sorted@[a] == old_sorted[a]);
                    }
                }
                assert forall|a: int| 0 <= a < keys@.len() implies #[trigger] keys@[a] == mru_rank(self@, sorted@[a].hwnd) by {
                    if a > p {
                        assert(sorted@[a] == old_sorted[a - 1]);
                    } else if a < p {
                        assert(sorted@[a] == old_sorted[a]);
                    }
                }
                assert(src@ =~= unsorted.take(j - 1));
            }
            j -= 1;
        }
        proof {
            assert forall|i: int, jj: int| 0 <= i < jj < sorted@.len() implies mru_rank(self@, (#[trigger] sorted@[i]).hwnd)
                <= mru_rank(self@, (#[trigger] sorted@[jj]).hwnd) by {
                assert(keys@[i] <= keys@[jj]);
            }
            assert forall|i: int, jj: int| 0 <= i < jj < sorted@.len() && mru_rank(self@, (#[trigger] sorted@[i]).hwnd)
                == mru_rank(self@, (#[trigger] sorted@[jj]).hwnd) implies perm[i] < perm[jj] by {
                assert(keys@[i] == keys@[jj]);
            }
        }
        *windows = sorted;
        assert(is_stable_mru_sort(self@, unsorted, windows@, perm));
    }
}

/// Filtering keeps a sequence whose elements all pass the predicate.
proof fn lemma_filter_keeps_all(s: Seq<isize>, pred: spec_fn(isize) -> bool)
    requires
        forall|i: int| 0 <= i < s.len() ==> pred(#[trigger] s[i]),
    ensures
        s.filter(pred) == s,
    decreases s.len(),
{
    reveal(Seq::filter);
    if s.len() > 0 {
        lemma_filter_keeps_all(s.drop_last(), pred);
        assert(s.drop_last().push(s.last()) =~= s);
    }
}

/// Bringing a window to the front puts it first and keeps the list within
/// `MRU_MAX_SIZE`, and bringing the same window to the front again changes
/// nothing.
pub proof fn lemma_move_to_front_idempotent(order: Seq<isize>, hwnd: isize)
    ensures
        moved_to_front(order, hwnd)[0] == hwnd,
        moved_to_front(order, hwnd).len() <= MRU_MAX_SIZE,
        moved_to_front(moved_to_front(order, hwnd), hwnd) == moved_to_front(order, hwnd),
{
    let pred = other_than(hwnd);
    let f = order.filter(pred);
    let m = moved_to_front(order, hwnd);
    let g = if f.len() > MRU_MAX_SIZE - 1 { f.take(MRU_MAX_SIZE - 1) } else { f };
    assert(m =~= seq![hwnd] + g);
    assert forall|i: int| 0 <= i < g.len() implies pred(#[trigger] g[i]) by {
        order.lemma_filter_pred(pred, i);
        assert(g[i] == f[i]);
    }
    lemma_filter_keeps_all(g, pred);
    g.lemma_filter_prepend(hwnd, pred);
    assert(!pred(hwnd));
    assert(m.filter(pred) =~= g);
    assert(moved_to_front(m, hwnd) =~= seq![hwnd] + g);
}

impl Default for MruTracker {
    fn default() -> (r: Self)
        ensures
            r@ == Seq::<isize>::empty(),
    {
        Self::new()
    }
}

} // verus!
