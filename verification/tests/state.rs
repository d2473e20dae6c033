use window_selector::state::{OverlayState, SessionTags};

fn hwnd(n: isize) -> isize {
    n
}

#[test]
fn test_assign_and_get_tag() {
    let mut tags = SessionTags::new();
    let hw = hwnd(1);
    tags.assign(1, hw);
    assert_eq!(tags.get(1), Some(hw));
    assert_eq!(tags.get(2), None);
}

#[test]
fn test_assign_overwrites_prior_assignment() {
    let mut tags = SessionTags::new();
    let hw_a = hwnd(1);
    let hw_b = hwnd(2);
    tags.assign(1, hw_a);
    tags.assign(1, hw_b);
    assert_eq!(tags.get(1), Some(hw_b));
}

#[test]
fn test_get_tag_for_hwnd() {
    let mut tags = SessionTags::new();
    let hw = hwnd(42);
    tags.assign(3, hw);
    assert_eq!(tags.get_tag_for_hwnd(hw), Some(3));
    assert_eq!(tags.get_tag_for_hwnd(hwnd(99)), None);
}

#[test]
fn test_remove_by_hwnd() {
    let mut tags = SessionTags::new();
    let hw = hwnd(5);
    tags.assign(2, hw);
    assert_eq!(tags.get(2), Some(hw));
    tags.remove_by_hwnd(hw);
    assert_eq!(tags.get(2), None);
}

#[test]
fn test_overlay_state_active_selected() {
    let state = OverlayState::Active { selected: Some(3) };
    assert!(state.is_active());
    assert!(state.is_visible());
    assert_eq!(state.selected_index(), Some(3));
}

#[test]
fn test_overlay_state_hidden() {
    let state = OverlayState::Hidden;
    assert!(!state.is_active());
    assert!(!state.is_visible());
    assert_eq!(state.selected_index(), None);
}

#[test]
fn test_overlay_state_fading_in() {
    let state = OverlayState::FadingIn;
    assert!(!state.is_active());
    assert!(state.is_visible());
}

#[test]
fn test_overlay_state_fading_out() {
    let state = OverlayState::FadingOut { switch_target: None };
    assert!(!state.is_active());
    assert!(state.is_visible());
}

#[test]
fn label_mode_is_visible_but_not_the_active_grid() {
    let state = OverlayState::LabelMode { selected: Some(7) };
    assert!(!state.is_active());
    assert!(state.is_visible());
    assert_eq!(state.selected_index(), None);
    assert_eq!(OverlayState::FadingIn.selected_index(), None);
}

#[test]
fn one_window_can_hold_several_tags() {
    let mut tags = SessionTags::new();
    tags.assign(1, 10);
    tags.assign(2, 10);
    tags.assign(3, 20);
    assert_eq!(tags.get(1), Some(10));
    assert_eq!(tags.get(2), Some(10));
    assert_eq!(tags.get_tag_for_hwnd(10), Some(1));
    tags.remove_by_hwnd(10);
    assert_eq!(tags.get(1), None);
    assert_eq!(tags.get(2), None);
    assert_eq!(tags.get(3), Some(20));
}

#[test]
fn release_closed_drops_only_closed_windows() {
    let mut tags = SessionTags::new();
    tags.assign(1, 10);
    tags.assign(2, 20);
    tags.assign(9, 30);
    tags.release_closed(&[20, 30, 99]);
    assert_eq!(tags.get(1), Some(10));
    assert_eq!(tags.get(2), None);
    assert_eq!(tags.get(9), None);
}

#[test]
fn all_tags_lists_assignments_in_tag_order() {
    let mut tags = SessionTags::default();
    assert!(tags.all_tags().is_empty());
    tags.assign(7, 70);
    tags.assign(0, 5);
    tags.assign(255, 8);
    tags.assign(3, 30);
    assert_eq!(tags.all_tags(), vec![(0, 5), (3, 30), (7, 70), (255, 8)]);
}

#[test]
fn remove_after_assign_frees_the_number_and_keeps_other_windows() {
    let mut tags = SessionTags::new();
    tags.assign(1, 10);
    tags.assign(2, 20);
    tags.assign(1, 30);
    tags.remove_by_hwnd(30);
    assert_eq!(tags.get(1), None);
    assert_eq!(tags.get(2), Some(20));
    assert_eq!(tags.get_tag_for_hwnd(30), None);
    assert_eq!(tags.get_tag_for_hwnd(10), None);
}

#[test]
fn releasing_twice_is_releasing_once() {
    let mut tags = SessionTags::new();
    tags.assign(1, 10);
    tags.assign(2, 20);
    tags.release_closed(&[10]);
    let once = tags.all_tags();
    tags.release_closed(&[10]);
    assert_eq!(tags.all_tags(), once);
    assert_eq!(once, vec![(2, 20)]);
}
