//! Snapshot of one top-level window at overlay activation time.
use vstd::prelude::*;

verus! {

/// One window of the snapshot. Window and icon handles are carried as the plain
/// integer values of the underlying OS handles.
#[derive(Debug, Clone)]
pub struct WindowInfo {
    pub hwnd: isize,
    pub title: String,
    pub is_minimized: bool,
    pub monitor_index: usize,
    pub letter: Option<char>,
    pub number_tag: Option<u8>,
    /// Icon handle fetched once at snapshot time (owned by the target process).
    pub icon: Option<isize>,
}

impl WindowInfo {
    /// A window with no letter, no number tag and no cached icon yet.
    pub fn new(hwnd: isize, title: String, is_minimized: bool, monitor_index: usize) -> (r: Self)
        ensures
            r.hwnd == hwnd,
            r.title == title,
            r.is_minimized == is_minimized,
            r.monitor_index == monitor_index,
            r.letter is None,
            r.number_tag is None,
            r.icon is None,
    {
        WindowInfo { hwnd, title, is_minimized, monitor_index, letter: None, number_tag: None, icon: None }
    }
}

} // verus!
