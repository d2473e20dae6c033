use window_selector::mru_tracker::{MruTracker, MRU_MAX_SIZE};
use window_selector::window_info::WindowInfo;

fn hwnd(n: isize) -> isize {
    n
}

#[test]
fn test_mru_move_to_front() {
    let mut tracker = MruTracker::new();
    let hw_a = hwnd(1);
    let hw_b = hwnd(2);

    tracker.on_foreground_change(hw_a);
    tracker.on_foreground_change(hw_b);
    tracker.on_foreground_change(hw_a);

    let order = tracker.get_order();
    assert_eq!(order[0], hw_a);
    assert_eq!(order[1], hw_b);
}

#[test]
fn test_mru_list_capped_at_100() {
    let mut tracker = MruTracker::new();
    for i in 0..110 {
        tracker.on_foreground_change(hwnd(i));
    }
    assert!(tracker.get_order().len() <= 100);
}

#[test]
fn test_mru_no_duplicates() {
    let mut tracker = MruTracker::new();
    let hw = hwnd(42);
    tracker.on_foreground_change(hw);
    tracker.on_foreground_change(hwnd(1));
    tracker.on_foreground_change(hw);
    // hw should appear only once at position 0
    let count = tracker.get_order().iter().filter(|&&h| h == hw).count();
    assert_eq!(count, 1);
}

#[test]
fn cap_drops_the_least_recent_window() {
    let mut tracker = MruTracker::default();
    for i in 0..(MRU_MAX_SIZE as isize + 1) {
        tracker.on_foreground_change(i);
    }
    let order = tracker.get_order();
    assert_eq!(order.len(), MRU_MAX_SIZE);
    assert_eq!(order[0], MRU_MAX_SIZE as isize);
    assert_eq!(order[MRU_MAX_SIZE - 1], 1);
    assert!(!order.contains(&0));
}

#[test]
fn sort_by_mru_puts_recent_first_and_unknown_last_in_input_order() {
    let mut tracker = MruTracker::new();
    tracker.on_foreground_change(1);
    tracker.on_foreground_change(2);
    tracker.on_foreground_change(3);
    let mut windows: Vec<WindowInfo> = [9, 1, 8, 3, 2]
        .iter()
        .map(|&h| WindowInfo::new(h, format!("w{}", h), false, 0))
        .collect();
    tracker.sort_by_mru(&mut windows);
    let order: Vec<isize> = windows.iter().map(|w| w.hwnd).collect();
    assert_eq!(order, vec![3, 2, 1, 9, 8]);
}

#[test]
fn bringing_the_front_window_forward_again_changes_nothing() {
    let mut tracker = MruTracker::new();
    for h in [5, 6, 7] {
        tracker.on_foreground_change(h);
    }
    let before: Vec<isize> = tracker.get_order().to_vec();
    tracker.on_foreground_change(7);
    assert_eq!(tracker.get_order(), &before[..]);
    assert_eq!(before, vec![7, 6, 5]);
}
