use window_selector::overlay_paint::{
    badge_glow, icon_origin, letter_badge_rect, monitor_chip_rect, paint_route, quick_list_title, tag_badge_rect,
    PaintRoute,
};
use window_selector::state::OverlayState;
use window_selector::window_mover::Rect;

#[test]
fn letter_badge_sits_in_the_bottom_right_corner() {
    assert_eq!(letter_badge_rect(500, 400), Rect { left: 456, top: 362, right: 492, bottom: 392 });
}

#[test]
fn glow_grows_more_around_the_selected_badge() {
    let badge = Rect { left: 456, top: 362, right: 492, bottom: 392 };
    assert_eq!(badge_glow(badge, true), (Rect { left: 452, top: 358, right: 496, bottom: 396 }, 14));
    assert_eq!(badge_glow(badge, false), (Rect { left: 454, top: 360, right: 494, bottom: 394 }, 12));
}

#[test]
fn tag_badge_and_icon_sit_in_the_top_corners() {
    assert_eq!(tag_badge_rect(100, 500), Rect { left: 474, top: 106, right: 494, bottom: 126 });
    assert_eq!(icon_origin(20, 100), (28, 108));
    assert_eq!(monitor_chip_rect(), (Rect { left: 40, top: 40, right: 150, bottom: 136 }, 20));
}

#[test]
fn paint_routes_follow_the_window_and_the_state() {
    let active = OverlayState::Active { selected: None };
    assert_eq!(paint_route(true, None, &active), PaintRoute::Badges);
    assert_eq!(paint_route(true, None, &OverlayState::Hidden), PaintRoute::ClearOnly);
    assert_eq!(paint_route(true, None, &OverlayState::LabelMode { selected: None }), PaintRoute::LabelModeBadges);
    assert_eq!(paint_route(false, Some(2), &active), PaintRoute::SecondaryMonitor(3));
    assert_eq!(paint_route(false, Some(0), &active), PaintRoute::Default);
    assert_eq!(paint_route(false, Some(1), &OverlayState::FadingIn), PaintRoute::Default);
    assert_eq!(paint_route(false, None, &active), PaintRoute::Default);
}

#[test]
fn quick_list_titles_are_cut_at_sixty_characters() {
    let long: String = "é".repeat(70);
    assert_eq!(quick_list_title(&long).chars().count(), 60);
    assert_eq!(quick_list_title("Short"), "Short");
    assert_eq!(quick_list_title(""), "");
}

use window_selector::overlay_paint::nudge_labels;

#[test]
fn nudged_labels_never_overlap_and_only_move_down() {
    let anchors = [(100, 100), (110, 105), (120, 110), (400, 100), (100, 200)];
    let placed = nudge_labels(&anchors);
    assert_eq!(placed, vec![(100, 100), (110, 130), (120, 160), (400, 100), (100, 200)]);
    for i in 0..placed.len() {
        for j in (i + 1)..placed.len() {
            let (a, b) = (placed[i], placed[j]);
            let overlap = a.0 < b.0 + 36 && b.0 < a.0 + 36 && a.1 < b.1 + 30 && b.1 < a.1 + 30;
            assert!(!overlap, "{:?} overlaps {:?}", a, b);
        }
    }
}

#[test]
fn nudging_nothing_gives_nothing() {
    assert!(nudge_labels(&[]).is_empty());
}
