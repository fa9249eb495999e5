//! Reusable countdown timer.
//!
//! A timer holds an elapsed accumulator (milliseconds), a fixed duration and
//! a mode. `tick` advances the accumulator; `just_finished` is true exactly
//! on the tick during which the accumulator crossed the duration boundary,
//! and fires at most once per tick no matter how many multiples of the
//! duration the delta covered. In repeating mode the accumulator wraps
//! modulo the duration, preserving overshoot so that the firing cadence
//! stays phase-correct across frames; in one-shot mode it clamps to the
//! duration and the timer fires only once.

use vstd::arithmetic::div_mod::{
    lemma_fundamental_div_mod_converse_div, lemma_fundamental_div_mod_converse_mod,
};
use vstd::prelude::*;

use crate::fixed::DUR_MAX;

verus! {

#[derive(Clone, Copy, PartialEq, Eq, Structural, Debug)]
pub enum TimerMode {
    /// Fires once and then stays at the duration.
    Once,
    /// Wraps modulo the duration and fires again each period.
    Repeating,
}

/// Error reported when a component is configured with invalid values.
#[derive(Clone, Copy, PartialEq, Eq, Structural, Debug)]
pub enum ConfigError {
    /// A timer was constructed with a zero duration.
    NonPositiveDuration,
    /// A timer duration exceeds the representable range (`DUR_MAX` ms).
    DurationTooLarge,
    /// A hitbox half-extent is negative.
    NegativeExtent,
    /// A tower body size exceeds `SIZE_MAX` milli-units.
    SizeTooLarge,
    /// A speed exceeds `SPEED_MAX` milli-units per second.
    SpeedTooLarge,
}

#[derive(Clone, Copy, PartialEq, Eq, Structural, Debug)]
pub struct Timer {
    /// Fixed period in milliseconds; always positive.
    pub duration: u64,
    /// Accumulated time in milliseconds since the last wrap (or start).
    pub elapsed: u64,
    pub mode: TimerMode,
    /// Whether the most recent `tick` crossed the duration boundary.
    pub fired: bool,
}

impl Timer {
    /// Validity: positive bounded duration, accumulator within the period.
    pub open spec fn inv(self) -> bool {
        &&& 0 < self.duration <= DUR_MAX
        &&& self.elapsed <= self.duration
        &&& self.mode is Repeating ==> self.elapsed < self.duration
    }

    pub fn new(duration_ms: u64, mode: TimerMode) -> (r: Result<Timer, ConfigError>)
        ensures
            r is Ok <==> 1 <= duration_ms <= DUR_MAX,
            1 <= duration_ms <= DUR_MAX ==> r == Ok::<Timer, ConfigError>(
                Timer { duration: duration_ms, elapsed: 0, mode, fired: false },
            ),
            duration_ms == 0 ==> r == Err::<Timer, ConfigError>(ConfigError::NonPositiveDuration),
            duration_ms > DUR_MAX ==> r == Err::<Timer, ConfigError>(ConfigError::DurationTooLarge),
            r is Ok ==> r->Ok_0.inv(),
    {
        if duration_ms == 0 {
            Err(ConfigError::NonPositiveDuration)
        } else if duration_ms > DUR_MAX {
            Err(ConfigError::DurationTooLarge)
        } else {
            Ok(Timer { duration: duration_ms, elapsed: 0, mode, fired: false })
        }
    }

    /// Advance the accumulator by `delta` milliseconds.
    pub fn tick(&mut self, delta: u64)
        requires
            old(self).inv(),
            old(self).elapsed + delta <= u64::MAX,
        ensures
            *final(self) == spec_tick(*old(self), delta as int),
            final(self).inv(),
    {
        let total = self.elapsed + delta;
        match self.mode {
            TimerMode::Repeating => {
                if total >= self.duration {
                    self.elapsed = total % self.duration;
                    self.fired = true;
                } else {
                    self.elapsed = total;
                    self.fired = false;
                }
            },
            TimerMode::Once => {
                if total >= self.duration {
                    self.fired = self.elapsed < self.duration;
                    self.elapsed = self.duration;
                } else {
                    self.elapsed = total;
                    self.fired = false;
                }
            },
        }
    }

    /// True exactly when the last `tick` crossed the duration boundary.
    pub fn just_finished(&self) -> (r: bool)
        ensures
            r == self.fired,
    {
        self.fired
    }
}

/// The timer state after one `tick` by `delta` milliseconds.
pub open spec fn spec_tick(t: Timer, delta: int) -> Timer
    recommends
        t.inv(),
        0 <= delta,
{
    let total = t.elapsed + delta;
    match t.mode {
        TimerMode::Repeating => {
            if total >= t.duration {
                Timer { elapsed: (total % (t.duration as int)) as u64, fired: true, ..t }
            } else {
                Timer { elapsed: total as u64, fired: false, ..t }
            }
        },
        TimerMode::Once => {
            if total >= t.duration {
                Timer { elapsed: t.duration, fired: t.elapsed < t.duration, ..t }
            } else {
                Timer { elapsed: total as u64, fired: false, ..t }
            }
        },
    }
}

/// The timer state after ticking through `deltas` in order.
pub open spec fn run_ticks(t: Timer, deltas: Seq<int>) -> Timer
    decreases deltas.len(),
{
    if deltas.len() == 0 {
        t
    } else {
        spec_tick(run_ticks(t, deltas.drop_last()), deltas.last())
    }
}

/// How many of the ticks in `deltas` fired.
pub open spec fn fire_count(t: Timer, deltas: Seq<int>) -> int
    decreases deltas.len(),
{
    if deltas.len() == 0 {
        0
    } else {
        fire_count(t, deltas.drop_last()) + if spec_tick(
            run_ticks(t, deltas.drop_last()),
            deltas.last(),
        ).fired {
            1int
        } else {
            0int
        }
    }
}

/// Total time covered by a sequence of ticks.
pub open spec fn sum(deltas: Seq<int>) -> int
    decreases deltas.len(),
{
    if deltas.len() == 0 {
        0
    } else {
        sum(deltas.drop_last()) + deltas.last()
    }
}

/// Every tick in the sequence is non-negative and at most `bound`.
pub open spec fn all_deltas_in(deltas: Seq<int>, bound: int) -> bool {
    forall|i: int| 0 <= i < deltas.len() ==> 0 <= #[trigger] deltas[i] <= bound
}

/// Phase accuracy of a repeating timer, generalized over the start phase:
/// after any sequence of ticks (each at most one period long) the
/// accumulator holds the total modulo the duration, and the number of
/// fires is the number of whole periods covered, no matter how the total
/// was split across ticks.
pub proof fn lemma_repeating_phase_from(t: Timer, deltas: Seq<int>)
    requires
        t.mode is Repeating,
        0 < t.duration,
        t.elapsed < t.duration,
        all_deltas_in(deltas, t.duration as int),
    ensures
        run_ticks(t, deltas).duration == t.duration,
        run_ticks(t, deltas).mode == t.mode,
        run_ticks(t, deltas).elapsed == (t.elapsed + sum(deltas)) % (t.duration as int),
        fire_count(t, deltas) == (t.elapsed + sum(deltas)) / (t.duration as int),
    decreases deltas.len(),
{
    let d = t.duration as int;
    if deltas.len() == 0 {
        assert((t.elapsed + 0) % d == t.elapsed as int && (t.elapsed + 0) / d == 0) by {
            lemma_fundamental_div_mod_converse_mod(t.elapsed as int, d, 0, t.elapsed as int);
            lemma_fundamental_div_mod_converse_div(t.elapsed as int, d, 0, t.elapsed as int);
        }
    } else {
        let init = deltas.drop_last();
        let last = deltas.last();
        assert(all_deltas_in(init, d)) by {
            assert(forall|i: int|
                0 <= i < init.len() ==> init[i] == #[trigger] deltas[i] && 0 <= deltas[i] <= d);
        }
        lemma_repeating_phase_from(t, init);
        let before = run_ticks(t, init);
        let x = t.elapsed + sum(init);
        let q = fire_count(t, init);
        // before.elapsed == x % d and q == x / d; reconstruct x from them.
        assert(x == d * q + before.elapsed) by {
            vstd::arithmetic::div_mod::lemma_fundamental_div_mod(x, d);
        }
        let total = before.elapsed + last;
        if total >= d {
            // One period crossed: 0 <= total - d < d.
            assert((x + last) % d == total - d && (x + last) / d == q + 1) by {
                assert(x + last == (q + 1) * d + (total - d)) by (nonlinear_arith)
                    requires
                        x == d * q + before.elapsed,
                        total == before.elapsed + last,
                ;
                lemma_fundamental_div_mod_converse_mod(x + last, d, q + 1, total - d);
                lemma_fundamental_div_mod_converse_div(x + last, d, q + 1, total - d);
            }
            assert(total % d == total - d) by {
                lemma_fundamental_div_mod_converse_mod(total, d, 1, total - d);
            }
        } else {
            assert((x + last) % d == total && (x + last) / d == q) by {
                assert(x + last == q * d + total) by (nonlinear_arith)
                    requires
                        x == d * q + before.elapsed,
                        total == before.elapsed + last,
                ;
                lemma_fundamental_div_mod_converse_mod(x + last, d, q, total);
                lemma_fundamental_div_mod_converse_div(x + last, d, q, total);
            }
        }
    }
}

/// Timer phase accuracy: ticking a fresh repeating timer of duration `D`
/// by deltas summing to `k * D + r` with `0 <= r < D` fires exactly `k`
/// times and leaves the accumulator at `r`, regardless of how the total
/// was split across the calls.
pub proof fn lemma_timer_phase(t: Timer, deltas: Seq<int>, k: int, r: int)
    requires
        t.mode is Repeating,
        0 < t.duration,
        t.elapsed == 0,
        all_deltas_in(deltas, t.duration as int),
        sum(deltas) == k * (t.duration as int) + r,
        0 <= r < t.duration,
    ensures
        fire_count(t, deltas) == k,
        run_ticks(t, deltas).elapsed == r,
{
    let d = t.duration as int;
    lemma_repeating_phase_from(t, deltas);
    lemma_fundamental_div_mod_converse_mod(sum(deltas), d, k, r);
    lemma_fundamental_div_mod_converse_div(sum(deltas), d, k, r);
}

/// A sequence of `n` equal ticks.
pub open spec fn repeat_delta(delta: int, n: int) -> Seq<int> {
    Seq::new(n as nat, |i: int| delta)
}

/// Before the first boundary crossing a fresh repeating timer accumulates
/// linearly and never fires.
pub proof fn lemma_linear_before_first_fire(t: Timer, delta: int, n: int)
    requires
        t.mode is Repeating,
        0 < t.duration,
        t.elapsed == 0,
        0 < delta,
        0 <= n,
        n * delta < t.duration,
    ensures
        run_ticks(t, repeat_delta(delta, n)).elapsed == n * delta,
        run_ticks(t, repeat_delta(delta, n)).duration == t.duration,
        run_ticks(t, repeat_delta(delta, n)).mode == t.mode,
        fire_count(t, repeat_delta(delta, n)) == 0,
    decreases n,
{
    if n == 0 {
        assert(repeat_delta(delta, 0).len() == 0);
        assert(n * delta == 0) by (nonlinear_arith)
            requires
                n == 0,
        ;
    } else {
        assert((n - 1) * delta < t.duration && 0 <= (n - 1) * delta) by (nonlinear_arith)
            requires
                0 < delta,
                1 <= n,
                n * delta < t.duration,
        ;
        lemma_linear_before_first_fire(t, delta, n - 1);
        let s = repeat_delta(delta, n);
        assert(s.drop_last() =~= repeat_delta(delta, n - 1));
        assert(s.last() == delta);
        let before = run_ticks(t, s.drop_last());
        assert(before.elapsed == (n - 1) * delta);
        assert((n - 1) * delta + delta == n * delta) by (nonlinear_arith);
        assert(before.elapsed + delta == n * delta);
        assert(run_ticks(t, s) == spec_tick(before, delta));
        assert(spec_tick(before, delta).elapsed == n * delta);
    }
}

/// Lifetime termination: a fresh repeating timer of duration `L`, advanced
/// by a fixed per-tick delta, first fires exactly on the tick whose
/// cumulative elapsed time reaches or exceeds `L`, and on no earlier tick.
pub proof fn lemma_lifetime_termination(t: Timer, delta: int, n: int)
    requires
        t.mode is Repeating,
        0 < t.duration,
        t.elapsed == 0,
        0 < delta,
        1 <= n,
        (n - 1) * delta < t.duration,
    ensures
        (run_ticks(t, repeat_delta(delta, n)).fired <==> n * delta >= t.duration),
        fire_count(t, repeat_delta(delta, n - 1)) == 0,
{
    lemma_linear_before_first_fire(t, delta, n - 1);
    let s = repeat_delta(delta, n);
    assert(s.drop_last() =~= repeat_delta(delta, n - 1));
    assert(s.last() == delta);
    assert((n - 1) * delta + delta == n * delta) by (nonlinear_arith);
}

} // verus!
