//! Alpha fade animation state for the layered overlay windows.
//!
//! The animator only tracks the alpha value and the fade direction; the
//! window-attribute calls that apply it are made elsewhere on each timer tick.
use vstd::prelude::*;

verus! {

/// Starting alpha (fully transparent).
pub const ALPHA_MIN: u8 = 0;
/// Timer interval in milliseconds (~60fps).
pub const FADE_TIMER_INTERVAL_MS: u32 = 16;
/// Timer ID for the fade animation.
pub const FADE_TIMER_ID: usize = 1001;

/// Direction of the current fade animation.
#[derive(Debug, Clone, Copy, PartialEq, Eq, Structural)]
pub enum FadeDirection {
    In,
    Out,
}

/// Current alpha value and fade state, parameterised by the maximum alpha and
/// the per-tick alpha step.
#[derive(Debug, Clone)]
pub struct FadeAnimator {
    pub current_alpha: u8,
    pub direction: Option<FadeDirection>,
    /// Maximum alpha target (the configured overlay opacity).
    pub alpha_max: u8,
    /// Alpha change per timer tick.
    pub alpha_delta: u8,
    /// Whether the fade duration was 0 (show and hide without animation).
    pub instant: bool,
}

/// Alpha step per tick for a fade of `fade_duration_ms` towards `alpha_max`:
/// `ceil(alpha_max / (fade_duration_ms / 16))`, at least 1 and at most 255;
/// 255 in instant mode (duration 0), where it is never used.
pub open spec fn fade_step(alpha_max: u8, fade_duration_ms: u32) -> u8 {
    if fade_duration_ms == 0 {
        255
    } else {
        let q = (alpha_max * FADE_TIMER_INTERVAL_MS + fade_duration_ms - 1) / (fade_duration_ms as int);
        if q < 1 {
            1
        } else if q > 255 {
            255
        } else {
            q as u8
        }
    }
}

impl FadeAnimator {
    /// The animator after one timer tick.
    pub open spec fn stepped(self) -> FadeAnimator {
        match self.direction {
            Some(FadeDirection::In) => {
                if self.current_alpha + self.alpha_delta >= self.alpha_max {
                    FadeAnimator { current_alpha: self.alpha_max, direction: None, ..self }
                } else {
                    FadeAnimator {
                        current_alpha: (self.current_alpha + self.alpha_delta) as u8,
                        ..self
                    }
                }
            },
            Some(FadeDirection::Out) => {
                if self.current_alpha <= self.alpha_delta {
                    FadeAnimator { current_alpha: ALPHA_MIN, direction: None, ..self }
                } else {
                    FadeAnimator {
                        current_alpha: (self.current_alpha - self.alpha_delta) as u8,
                        ..self
                    }
                }
            },
            None => self,
        }
    }

    /// The animator after `n` timer ticks.
    pub open spec fn stepped_n(self, n: nat) -> FadeAnimator
        decreases n,
    {
        if n == 0 {
            self
        } else {
            self.stepped_n((n - 1) as nat).stepped()
        }
    }

    /// Create an animator for the given maximum alpha and fade duration.
    ///
    /// A duration of 0 selects instant mode: fades jump straight to their end value.
    pub fn new_with_params(alpha_max: u8, fade_duration_ms: u32) -> (r: Self)
        ensures
            r.current_alpha == ALPHA_MIN,
            r.direction is None,
            r.alpha_max == alpha_max,
            r.instant == (fade_duration_ms == 0),
            r.alpha_delta == fade_step(alpha_max, fade_duration_ms),
            r.alpha_delta >= 1,
    {
        let instant = fade_duration_ms == 0;
        let alpha_delta: u8 = if instant {
            255
        } else {
            let interval: u64 = FADE_TIMER_INTERVAL_MS as u64;
            assert(alpha_max as u64 * interval <= 4080) by (nonlinear_arith)
                requires interval == 16;
            let num: u64 = alpha_max as u64 * interval + fade_duration_ms as u64 - 1;
            let q: u64 = num / fade_duration_ms as u64;
            if q < 1 {
                1
            } else if q > 255 {
                255
            } else {
                q as u8
            }
        };
        FadeAnimator {
            current_alpha: ALPHA_MIN,
            direction: None,
            alpha_max,
            alpha_delta,
            instant,
        }
    }

    /// Create with the default parameters (alpha 220, 150 ms fade).
    pub fn new() -> (r: Self)
        ensures
            r.current_alpha == ALPHA_MIN,
            r.direction is None,
            r.alpha_max == 220,
            r.alpha_delta == 24,
            !r.instant,
    {
        Self::new_with_params(220, 150)
    }

    /// Start a fade-in; in instant mode jump straight to `alpha_max`.
    pub fn start_fade_in(&mut self)
        ensures
            final(self).alpha_max == old(self).alpha_max,
            final(self).alpha_delta == old(self).alpha_delta,
            final(self).instant == old(self).instant,
            old(self).instant ==> final(self).current_alpha == old(self).alpha_max
                && final(self).direction is None,
            !old(self).instant ==> final(self).current_alpha == ALPHA_MIN
                && final(self).direction == Some(FadeDirection::In),
    {
        if self.instant {
            self.current_alpha = self.alpha_max;
            self.direction = None;
        } else {
            self.current_alpha = ALPHA_MIN;
            self.direction = Some(FadeDirection::In);
        }
    }

    /// Start a fade-out; in instant mode drop straight to `ALPHA_MIN`.
    pub fn start_fade_out(&mut self)
        ensures
            final(self).alpha_max == old(self).alpha_max,
            final(self).alpha_delta == old(self).alpha_delta,
            final(self).instant == old(self).instant,
            old(self).instant ==> final(self).current_alpha == ALPHA_MIN
                && final(self).direction is None,
            !old(self).instant ==> final(self).current_alpha == old(self).alpha_max
                && final(self).direction == Some(FadeDirection::Out),
    {
        if self.instant {
            self.current_alpha = ALPHA_MIN;
            self.direction = None;
        } else {
            self.current_alpha = self.alpha_max;
            self.direction = Some(FadeDirection::Out);
        }
    }

    /// Advance the animation by one tick.
    /// Returns true while the animation is still running, false once it has completed
    /// (or when no animation was running).
    pub fn tick(&mut self) -> (running: bool)
        ensures
            *final(self) == old(self).stepped(),
            running == final(self).direction is Some,
            // a fade-in never lowers alpha, a fade-out never raises it
            old(self).direction == Some(FadeDirection::In) && old(self).current_alpha <= old(self).alpha_max
                ==> final(self).current_alpha >= old(self).current_alpha,
            old(self).direction == Some(FadeDirection::Out)
                ==> final(self).current_alpha <= old(self).current_alpha,
    {
        match self.direction {
            Some(FadeDirection::In) => {
                let new_alpha = self.current_alpha.saturating_add(self.alpha_delta);
                if new_alpha >= self.alpha_max {
                    self.current_alpha = self.alpha_max;
                    self.direction = None;
                    false
                } else {
                    self.current_alpha = new_alpha;
                    true
                }
            },
            Some(FadeDirection::Out) => {
                if self.current_alpha <= self.alpha_delta {
                    self.current_alpha = ALPHA_MIN;
                    self.direction = None;
                    false
                } else {
                    self.current_alpha = self.current_alpha.saturating_sub(self.alpha_delta);
                    true
                }
            },
            None => false,
        }
    }

    /// Whether a fade is in progress.
    pub fn is_animating(&self) -> (r: bool)
        ensures
            r == self.direction is Some,
    {
        self.direction.is_some()
    }
}

/// Number of ticks a fade of `alpha_max` takes with step `alpha_delta`:
/// `ceil(alpha_max / alpha_delta)`, and at least one tick.
pub open spec fn fade_ticks(alpha_max: u8, alpha_delta: u8) -> nat {
    if alpha_max == 0 {
        1
    } else {
        ((alpha_max + alpha_delta - 1) / (alpha_delta as int)) as nat
    }
}

proof fn lemma_fade_ticks_bounds(max: u8, d: u8, j: nat)
    requires
        d >= 1,
    ensures
        fade_ticks(max, d) >= 1,
        j + 1 < fade_ticks(max, d) ==> (j + 1) * d < max,
        fade_ticks(max, d) * d >= max,
{
    if max > 0 {
        let n = max + d - 1;
        let q = n / (d as int);
        assert(q * d <= n && n < q * d + d) by (nonlinear_arith)
            requires
                d >= 1,
                q == n / (d as int),
        ;
        assert(q >= 1) by (nonlinear_arith)
            requires
                d >= 1,
                max >= 1,
                q * d + d > max + d - 1,
                q * d <= max + d - 1,
        ;
        if j + 1 < q {
            assert((j + 1) * d < max) by (nonlinear_arith)
                requires
                    j + 1 <= q - 1,
                    q * d <= max + d - 1,
                    d >= 1,
            ;
        }
    }
}

proof fn lemma_fade_in_prefix(a: FadeAnimator, k: nat)
    requires
        a.direction == Some(FadeDirection::In),
        a.current_alpha == ALPHA_MIN,
        a.alpha_delta >= 1,
        k < fade_ticks(a.alpha_max, a.alpha_delta),
    ensures
        a.stepped_n(k) == (FadeAnimator { current_alpha: (k * a.alpha_delta) as u8, ..a }),
        k * a.alpha_delta < 256,
    decreases k,
{
    if k > 0 {
        lemma_fade_ticks_bounds(a.alpha_max, a.alpha_delta, (k - 1) as nat);
        lemma_fade_in_prefix(a, (k - 1) as nat);
        assert((k - 1) * a.alpha_delta + a.alpha_delta == k * a.alpha_delta) by (nonlinear_arith);
    } else {
        assert(k * a.alpha_delta == 0) by (nonlinear_arith)
            requires
                k == 0,
        ;
    }
}

proof fn lemma_fade_out_prefix(a: FadeAnimator, k: nat)
    requires
        a.direction == Some(FadeDirection::Out),
        a.current_alpha == a.alpha_max,
        a.alpha_delta >= 1,
        k < fade_ticks(a.alpha_max, a.alpha_delta),
    ensures
        k * a.alpha_delta <= a.alpha_max,
        a.stepped_n(k) == (FadeAnimator { current_alpha: (a.alpha_max - k * a.alpha_delta) as u8, ..a }),
    decreases k,
{
    if k > 0 {
        lemma_fade_ticks_bounds(a.alpha_max, a.alpha_delta, (k - 1) as nat);
        lemma_fade_out_prefix(a, (k - 1) as nat);
        assert((k - 1) * a.alpha_delta + a.alpha_delta == k * a.alpha_delta) by (nonlinear_arith);
    } else {
        assert(k * a.alpha_delta == 0) by (nonlinear_arith) requires k == 0;
    }
}

/// A fade-in that starts at `ALPHA_MIN` rises by exactly `alpha_delta` on every
/// tick, keeps running for `fade_ticks - 1` ticks, and finishes on tick number
/// `fade_ticks(alpha_max, alpha_delta)` with the alpha at exactly `alpha_max`.
pub proof fn lemma_fade_in_completes(a: FadeAnimator)
    requires
        a.direction == Some(FadeDirection::In),
        a.current_alpha == ALPHA_MIN,
        a.alpha_delta >= 1,
    ensures
        forall|k: nat| #![trigger a.stepped_n(k)]
            k < fade_ticks(a.alpha_max, a.alpha_delta) ==> a.stepped_n(k).direction == Some(FadeDirection::In)
                && a.stepped_n(k).current_alpha == k * a.alpha_delta,
        a.stepped_n(fade_ticks(a.alpha_max, a.alpha_delta)) == (FadeAnimator {
            current_alpha: a.alpha_max,
            direction: None,
            ..a
        }),
{
    let n = fade_ticks(a.alpha_max, a.alpha_delta);
    assert forall|k: nat| #![trigger a.stepped_n(k)]
        k < n implies a.stepped_n(k).direction == Some(FadeDirection::In)
            && a.stepped_n(k).current_alpha == k * a.alpha_delta by {
        lemma_fade_in_prefix(a, k);
    }
    lemma_fade_ticks_bounds(a.alpha_max, a.alpha_delta, 0);
    lemma_fade_ticks_bounds(a.alpha_max, a.alpha_delta, (n - 1) as nat);
    lemma_fade_in_prefix(a, (n - 1) as nat);
    assert((n - 1) * a.alpha_delta + a.alpha_delta == n * a.alpha_delta) by (nonlinear_arith);
}

/// A fade-out that starts at `alpha_max` falls by exactly `alpha_delta` on every
/// tick and finishes on tick number `fade_ticks(alpha_max, alpha_delta)` with the
/// alpha at exactly `ALPHA_MIN`.
pub proof fn lemma_fade_out_completes(a: FadeAnimator)
    requires
        a.direction == Some(FadeDirection::Out),
        a.current_alpha == a.alpha_max,
        a.alpha_delta >= 1,
    ensures
        forall|k: nat| #![trigger a.stepped_n(k)]
            k < fade_ticks(a.alpha_max, a.alpha_delta) ==> a.stepped_n(k).direction == Some(FadeDirection::Out)
                && a.stepped_n(k).current_alpha == a.alpha_max - k * a.alpha_delta,
        a.stepped_n(fade_ticks(a.alpha_max, a.alpha_delta)) == (FadeAnimator {
            current_alpha: ALPHA_MIN,
            direction: None,
            ..a
        }),
{
    let n = fade_ticks(a.alpha_max, a.alpha_delta);
    assert forall|k: nat| #![trigger a.stepped_n(k)]
        k < n implies a.stepped_n(k).direction == Some(FadeDirection::Out)
            && a.stepped_n(k).current_alpha == a.alpha_max - k * a.alpha_delta by {
        lemma_fade_out_prefix(a, k);
    }
    lemma_fade_ticks_bounds(a.alpha_max, a.alpha_delta, 0);
    lemma_fade_ticks_bounds(a.alpha_max, a.alpha_delta, (n - 1) as nat);
    lemma_fade_out_prefix(a, (n - 1) as nat);
    assert((n - 1) * a.alpha_delta + a.alpha_delta == n * a.alpha_delta) by (nonlinear_arith);
}

impl Default for FadeAnimator {
    fn default() -> (r: Self)
        ensures
            r.current_alpha == ALPHA_MIN,
            r.direction is None,
            r.alpha_max == 220,
            r.alpha_delta == 24,
            !r.instant,
    {
        Self::new()
    }
}

} // verus!
