//! A cooldown timer in milliseconds, with one-shot and repeating modes,
//! ticked by bevy's `Timer`.
use vstd::arithmetic::div_mod::lemma_fundamental_div_mod_converse;
use vstd::prelude::*;

verus! {

/// Whether a timer stops once it completes or starts over.
#[derive(Clone, Copy, Debug, PartialEq, Eq, Structural)]
pub enum TimerBehavior {
    Once,
    Repeating,
}

/// A timer that counts elapsed milliseconds towards a duration.
///
/// A repeating timer keeps the remainder when it completes; a one-shot timer
/// stays completed until it is reset.
#[derive(Clone, Copy, Debug, PartialEq, Eq, Structural)]
pub struct CooldownTimer {
    pub duration: u64,
    pub elapsed: u64,
    pub mode: TimerBehavior,
    pub finished: bool,
    pub times_finished_this_tick: u32,
}

/// The longest duration a timer keeps, in milliseconds: longer ones are cut
/// to it, so that the duration in nanoseconds fits a `u64`.
pub const MAX_DURATION: u64 = 18_446_744_073_709;

/// What ticking an unpaused timer that is not a completed one-shot timer
/// gives: elapsed milliseconds, whether it has finished, and how many times it
/// completed during the tick (modulo 2^32).
pub open spec fn tick_outcome(
    duration: int,
    elapsed: int,
    mode: TimerBehavior,
    delta: int,
) -> (u64, bool, u32) {
    let total = elapsed + delta;
    if total < duration {
        (total as u64, false, 0)
    } else if mode == TimerBehavior::Once {
        (duration as u64, true, 1)
    } else if duration == 0 {
        (0, true, u32::MAX)
    } else {
        ((total % duration) as u64, true, ((total / duration) % 0x1_0000_0000) as u32)
    }
}

/// The timer after `delta` more milliseconds have passed.
pub open spec fn ticked(t: CooldownTimer, delta: int) -> CooldownTimer {
    if t.mode == TimerBehavior::Once && t.finished {
        CooldownTimer { times_finished_this_tick: 0, ..t }
    } else {
        let o = tick_outcome(t.duration as int, t.elapsed as int, t.mode, delta);
        CooldownTimer { elapsed: o.0, finished: o.1, times_finished_this_tick: o.2, ..t }
    }
}

/// Relies on bevy_time's `Timer::tick`, on a timer built with `Timer::new`
/// and `Timer::set_elapsed` and read back with `elapsed`, `finished` and
/// `times_finished_this_tick`: the stopwatch advances by `delta`; on reaching
/// the duration a one-shot timer stops at it after one completion, and a
/// repeating one keeps the remainder and counts the whole durations passed
/// (as `u32`, cut to its low bits; a zero duration counts `u32::MAX`).
#[verifier::external_body]
fn bevy_tick(duration: u64, elapsed: u64, mode: TimerBehavior, delta: u64) -> (r: (u64, bool, u32))
    requires
        duration <= MAX_DURATION,
    ensures
        r == tick_outcome(duration as int, elapsed as int, mode, delta as int),
{
    let mode = match mode {
        TimerBehavior::Once => bevy::time::TimerMode::Once,
        TimerBehavior::Repeating => bevy::time::TimerMode::Repeating,
    };
    let mut t = bevy::time::Timer::new(std::time::Duration::from_millis(duration), mode);
    t.set_elapsed(std::time::Duration::from_millis(elapsed));
    t.tick(std::time::Duration::from_millis(delta));
    (t.elapsed().as_millis() as u64, t.finished(), t.times_finished_this_tick())
}

impl CooldownTimer {
    /// A fresh timer of `duration` milliseconds.
    pub open spec fn new_spec(duration: u64, mode: TimerBehavior) -> CooldownTimer {
        CooldownTimer {
            duration: if duration > MAX_DURATION { MAX_DURATION } else { duration },
            elapsed: 0,
            mode,
            finished: false,
            times_finished_this_tick: 0,
        }
    }

    /// Elapsed time never passes the duration, which stays within
    /// `MAX_DURATION`.
    pub open spec fn wf(&self) -> bool {
        self.elapsed <= self.duration <= MAX_DURATION
    }

    /// A fresh timer of `duration` milliseconds (at most `MAX_DURATION`).
    pub fn new(duration: u64, mode: TimerBehavior) -> (r: CooldownTimer)
        ensures
            r == CooldownTimer::new_spec(duration, mode),
            r.wf(),
    {
        let duration = if duration > MAX_DURATION {
            MAX_DURATION
        } else {
            duration
        };
        CooldownTimer { duration, elapsed: 0, mode, finished: false, times_finished_this_tick: 0 }
    }

    /// Whether the timer has reached its duration (for a repeating timer: on
    /// its last tick).
    pub fn finished(&self) -> (r: bool)
        ensures
            r == self.finished,
    {
        self.finished
    }

    /// Whether the timer completed at least once during its last tick.
    pub fn just_finished(&self) -> (r: bool)
        ensures
            r == (self.times_finished_this_tick > 0),
    {
        self.times_finished_this_tick > 0
    }

    /// Starts the timer over from zero.
    pub fn reset(&mut self)
        ensures
            *final(self) == (CooldownTimer {
                elapsed: 0,
                finished: false,
                times_finished_this_tick: 0,
                ..*old(self)
            }),
    {
        self.elapsed = 0;
        self.finished = false;
        self.times_finished_this_tick = 0;
    }

    /// Advances the timer by `delta` milliseconds.
    pub fn tick(&mut self, delta: u64)
        requires
            old(self).wf(),
        ensures
            *final(self) == ticked(*old(self), delta as int),
            final(self).wf(),
    {
        if self.mode == TimerBehavior::Once && self.finished {
            self.times_finished_this_tick = 0;
            return;
        }
        let (elapsed, finished, times) = bevy_tick(self.duration, self.elapsed, self.mode, delta);
        proof {
            let total = self.elapsed + delta;
            if total >= self.duration && self.mode == TimerBehavior::Repeating && self.duration > 0 {
                vstd::arithmetic::div_mod::lemma_mod_bound(total as int, self.duration as int);
            }
        }
        self.elapsed = elapsed;
        self.finished = finished;
        self.times_finished_this_tick = times;
    }
}

/// The timer after `n` ticks of `dt` milliseconds each.
pub open spec fn run_ticks(t: CooldownTimer, dt: int, n: nat) -> CooldownTimer
    decreases n,
{
    if n == 0 {
        t
    } else {
        ticked(run_ticks(t, dt, (n - 1) as nat), dt)
    }
}

/// How many of those `n` ticks completed the timer at least once.
pub open spec fn completing_ticks(t: CooldownTimer, dt: int, n: nat) -> nat
    decreases n,
{
    if n == 0 {
        0
    } else {
        completing_ticks(t, dt, (n - 1) as nat) + if ticked(
            run_ticks(t, dt, (n - 1) as nat),
            dt,
        ).times_finished_this_tick > 0 {
            1nat
        } else {
            0nat
        }
    }
}

/// A repeating timer of duration `d`, ticked `n` times by a step `dt` no longer
/// than `d`, completes on exactly `(elapsed + n * dt) / d` of those ticks,
/// keeps the remainder as its elapsed time, and never completes twice within
/// one tick.
pub proof fn lemma_repeating_completions(t: CooldownTimer, dt: int, n: nat)
    requires
        t.mode == TimerBehavior::Repeating,
        t.duration > 0,
        t.elapsed < t.duration,
        0 <= dt <= t.duration,
    ensures
        completing_ticks(t, dt, n) == (t.elapsed + n * dt) / (t.duration as int),
        run_ticks(t, dt, n).elapsed == (t.elapsed + n * dt) % (t.duration as int),
        run_ticks(t, dt, n).mode == TimerBehavior::Repeating,
        run_ticks(t, dt, n).duration == t.duration,
        n > 0 ==> run_ticks(t, dt, n).times_finished_this_tick <= 1,
    decreases n,
{
    let d = t.duration as int;
    if n == 0 {
        lemma_fundamental_div_mod_converse(t.elapsed as int, d, 0, t.elapsed as int);
    } else {
        let m = (n - 1) as nat;
        lemma_repeating_completions(t, dt, m);
        let prev = run_ticks(t, dt, m);
        let s = t.elapsed + m * dt;
        let q = s / d;
        let r = s % d;
        assert(s == q * d + r && 0 <= r < d) by {
            vstd::arithmetic::div_mod::lemma_fundamental_div_mod(s, d);
        }
        assert(t.elapsed + n * dt == s + dt) by (nonlinear_arith)
            requires
                n == m + 1,
                s == t.elapsed + m * dt,
        ;
        if r + dt < d {
            lemma_fundamental_div_mod_converse(s + dt, d, q, r + dt);
        } else {
            assert(s + dt == (q + 1) * d + (r + dt - d)) by (nonlinear_arith)
                requires s == q * d + r;
            lemma_fundamental_div_mod_converse(s + dt, d, q + 1, r + dt - d);
            lemma_fundamental_div_mod_converse(r + dt, d, 1, r + dt - d);
        }
    }
}

} // verus!
