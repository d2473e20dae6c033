use window_selector::animation::{FadeAnimator, ALPHA_MIN};

#[test]
fn test_fade_in_reaches_max() {
    let mut anim = FadeAnimator::new_with_params(220, 150);
    anim.start_fade_in();
    assert!(anim.is_animating());

    let mut ticks = 0;
    while anim.tick() {
        ticks += 1;
        assert!(ticks < 20, "Fade-in should complete within 20 ticks");
    }
    assert_eq!(anim.current_alpha, 220);
    assert!(!anim.is_animating());
}

#[test]
fn test_fade_out_reaches_min() {
    let mut anim = FadeAnimator::new_with_params(220, 150);
    anim.start_fade_out();
    assert!(anim.is_animating());

    let mut ticks = 0;
    while anim.tick() {
        ticks += 1;
        assert!(ticks < 20, "Fade-out should complete within 20 ticks");
    }
    assert_eq!(anim.current_alpha, ALPHA_MIN);
    assert!(!anim.is_animating());
}

#[test]
fn test_alpha_increases_during_fade_in() {
    let mut anim = FadeAnimator::new_with_params(220, 150);
    anim.start_fade_in();
    let prev = anim.current_alpha;
    anim.tick();
    assert!(anim.current_alpha >= prev);
}

#[test]
fn test_alpha_decreases_during_fade_out() {
    let mut anim = FadeAnimator::new_with_params(220, 150);
    anim.start_fade_out();
    let prev = anim.current_alpha;
    anim.tick();
    assert!(anim.current_alpha <= prev);
}

#[test]
fn test_instant_fade_in_skips_animation() {
    let mut anim = FadeAnimator::new_with_params(200, 0);
    assert!(anim.instant);
    anim.start_fade_in();
    assert_eq!(anim.current_alpha, 200);
    assert!(!anim.is_animating());
}

#[test]
fn test_instant_fade_out_skips_animation() {
    let mut anim = FadeAnimator::new_with_params(200, 0);
    anim.current_alpha = 200;
    anim.start_fade_out();
    assert_eq!(anim.current_alpha, ALPHA_MIN);
    assert!(!anim.is_animating());
}

#[test]
fn test_custom_alpha_max_respected() {
    let mut anim = FadeAnimator::new_with_params(180, 100);
    anim.start_fade_in();
    while anim.tick() {}
    assert_eq!(anim.current_alpha, 180);
}

#[test]
fn test_params_valid() {
    let anim = FadeAnimator::new_with_params(220, 150);
    assert_eq!(anim.alpha_max, 220);
    assert!(!anim.instant);
    assert!(anim.alpha_delta > 0);
    let expected_ticks = (anim.alpha_max as f32 / anim.alpha_delta as f32).ceil() as u32;
    assert!(expected_ticks <= 12, "Should complete in <= 12 ticks");
}

#[test]
fn test_new_uses_defaults() {
    let anim = FadeAnimator::new();
    assert_eq!(anim.alpha_max, 220);
    assert!(!anim.instant);
}

// --- additional cases ---

#[test]
fn fade_step_matches_ceiling_formula() {
    // 220 / (150 / 16) = 23.47 -> 24
    assert_eq!(FadeAnimator::new_with_params(220, 150).alpha_delta, 24);
    // 180 / (100 / 16) = 28.8 -> 29
    assert_eq!(FadeAnimator::new_with_params(180, 100).alpha_delta, 29);
    // exact division: 10 / (160 / 16) = 1
    assert_eq!(FadeAnimator::new_with_params(10, 160).alpha_delta, 1);
    // a very short fade saturates at 255
    assert_eq!(FadeAnimator::new_with_params(255, 1).alpha_delta, 255);
    // a zero target still moves by at least one
    assert_eq!(FadeAnimator::new_with_params(0, 500).alpha_delta, 1);
    // instant mode uses the 255 sentinel
    assert_eq!(FadeAnimator::new_with_params(200, 0).alpha_delta, 255);
}

#[test]
fn fade_in_takes_exactly_ceiling_ticks() {
    // 220 with step 24: ceil(220 / 24) = 10 ticks, the last one completing
    let mut anim = FadeAnimator::new_with_params(220, 150);
    anim.start_fade_in();
    let mut calls = 0;
    let mut alphas = Vec::new();
    loop {
        calls += 1;
        let running = anim.tick();
        alphas.push(anim.current_alpha);
        if !running {
            break;
        }
    }
    assert_eq!(calls, 10);
    assert_eq!(alphas[0], 24);
    assert_eq!(alphas[8], 216);
    assert_eq!(alphas[9], 220);
}

#[test]
fn fade_out_takes_exactly_ceiling_ticks() {
    let mut anim = FadeAnimator::new_with_params(220, 150);
    anim.start_fade_out();
    let mut calls = 0;
    loop {
        calls += 1;
        if !anim.tick() {
            break;
        }
    }
    assert_eq!(calls, 10);
    assert_eq!(anim.current_alpha, 0);
}

#[test]
fn tick_without_fade_is_noop() {
    let mut anim = FadeAnimator::new();
    anim.current_alpha = 77;
    assert!(!anim.tick());
    assert_eq!(anim.current_alpha, 77);
    assert!(anim.direction.is_none());
}

#[test]
fn default_matches_new() {
    let a = FadeAnimator::default();
    assert_eq!(a.alpha_max, 220);
    assert_eq!(a.alpha_delta, 24);
    assert_eq!(a.current_alpha, ALPHA_MIN);
}
