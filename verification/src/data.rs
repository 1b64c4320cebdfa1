//! The timer model: state, timestamps, and the remaining-time arithmetic.

use vstd::prelude::*;

verus! {

/// The run state of the timer.
///
/// `Expired` is terminal: nothing transitions out of it.
#[derive(Clone, Copy, PartialEq, Eq, Structural, Debug)]
pub enum TimerState {
    Running,
    Paused,
    Expired,
}

/// Holds the data a timer widget displays.
///
/// `last_started` is the clock reading (in milliseconds) when the timer was
/// last started or unpaused. `last_remaining` is the duration (in
/// milliseconds) that remained on the timer at that moment. While the timer
/// is `Running`, the remaining time at clock reading `now` is
/// `last_remaining - (now - last_started)`, clamped to zero; while it is
/// `Paused` or `Expired`, `last_remaining` itself is authoritative.
#[derive(Clone, Copy, Debug)]
pub struct TimerData {
    last_started: u64,
    last_remaining: u64,
    state: TimerState,
}

impl TimerData {
    /// The clock reading at which the timer was last started or unpaused.
    pub closed spec fn started_at_ms(self) -> u64 {
        self.last_started
    }

    /// The remaining duration as of `started_at_ms()`.
    pub closed spec fn stored_remaining_ms(self) -> u64 {
        self.last_remaining
    }

    /// The run state.
    pub closed spec fn status(self) -> TimerState {
        self.state
    }

    /// Milliseconds elapsed since the timer was last started, clamped to
    /// zero if the clock reads earlier than `started_at_ms()`.
    pub open spec fn spec_elapsed_ms(self, now_ms: u64) -> int {
        if now_ms >= self.started_at_ms() {
            now_ms - self.started_at_ms()
        } else {
            0
        }
    }

    /// The remaining duration in milliseconds at clock reading `now_ms`:
    /// the stored duration while `Paused` or `Expired`, and the stored
    /// duration less the elapsed time, clamped to zero, while `Running`.
    pub open spec fn spec_remaining_ms(self, now_ms: u64) -> int {
        if self.status() == TimerState::Running {
            if self.stored_remaining_ms() >= self.spec_elapsed_ms(now_ms) {
                self.stored_remaining_ms() - self.spec_elapsed_ms(now_ms)
            } else {
                0
            }
        } else {
            self.stored_remaining_ms() as int
        }
    }

    /// The remaining time in whole seconds (truncated) at `now_ms`.
    pub open spec fn spec_remaining_secs(self, now_ms: u64) -> int {
        self.spec_remaining_ms(now_ms) / 1000
    }

    /// Whether the deadline `started_at_ms() + stored_remaining_ms()` has
    /// passed at `now_ms`, independent of the run state.
    pub open spec fn spec_is_expired(self, now_ms: u64) -> bool {
        self.started_at_ms() + self.stored_remaining_ms() <= now_ms
    }

    pub fn new(last_started: u64, last_remaining: u64, state: TimerState) -> (t: Self)
        ensures
            t.started_at_ms() == last_started,
            t.stored_remaining_ms() == last_remaining,
            t.status() == state,
    {
        TimerData { last_started, last_remaining, state }
    }

    pub fn get_state(&self) -> (s: TimerState)
        ensures
            s == self.status(),
    {
        self.state
    }

    /// The clock reading at which the timer was last started or unpaused.
    pub fn get_started_at_ms(&self) -> (r: u64)
        ensures
            r == self.started_at_ms(),
    {
        self.last_started
    }

    /// The stored remaining duration, authoritative while not `Running`.
    pub fn get_stored_remaining_ms(&self) -> (r: u64)
        ensures
            r == self.stored_remaining_ms(),
    {
        self.last_remaining
    }

    /// The remaining duration in milliseconds at clock reading `now_ms`.
    pub fn remaining_ms(&self, now_ms: u64) -> (r: u64)
        ensures
            r == self.spec_remaining_ms(now_ms),
    {
        if self.state == TimerState::Running {
            let elapsed = if now_ms >= self.last_started {
                now_ms - self.last_started
            } else {
                0
            };
            if self.last_remaining >= elapsed {
                self.last_remaining - elapsed
            } else {
                0
            }
        } else {
            self.last_remaining
        }
    }

    /// The remaining time in whole seconds at clock reading `now_ms`.
    pub fn remaining_seconds(&self, now_ms: u64) -> (r: u64)
        ensures
            r == self.spec_remaining_secs(now_ms),
    {
        self.remaining_ms(now_ms) / 1000
    }

    /// Whether the deadline has passed at `now_ms`. A pure time comparison,
    /// independent of the run state: it detects expiry even before
    /// `check_timed_out` has recorded it.
    pub fn is_expired(&self, now_ms: u64) -> (r: bool)
        ensures
            r == self.spec_is_expired(now_ms),
    {
        now_ms >= self.last_started && now_ms - self.last_started >= self.last_remaining
    }

    /// Renders the remaining time at `now_ms` as an `MM:SS` label.
    pub fn to_string(&self, now_ms: u64) -> (r: String)
        ensures
            r@ == crate::display::spec_mm_ss(self.spec_remaining_secs(now_ms) as nat),
    {
        crate::display::format_mm_ss(self.remaining_seconds(now_ms))
    }

    /// If the deadline has passed and the timer is not yet `Expired`, marks
    /// it `Expired`. Idempotent.
    ///
    /// The transition also writes the stored remaining duration down as
    /// zero — the clamped remaining time at any expired instant — so that the
    /// stored duration stays authoritative in every non-running state.
    pub fn check_timed_out(&mut self, now_ms: u64)
        ensures
            check_expired_rel(*old(self), *final(self), now_ms),
    {
        if self.state != TimerState::Expired && self.is_expired(now_ms) {
            self.last_remaining = 0;
            self.state = TimerState::Expired;
        }
    }

    /// Starts a `Paused` timer running from `now_ms`; a no-op in any other
    /// state (in particular, an `Expired` timer cannot be restarted).
    pub fn resume(&mut self, now_ms: u64)
        ensures
            resume_rel(*old(self), *final(self), now_ms),
    {
        if self.state == TimerState::Paused {
            self.last_started = now_ms;
            self.state = TimerState::Running;
        }
    }

    /// Pauses a `Running` timer at `now_ms`, storing the remaining duration
    /// as of that instant (clamped to zero if the timer overran); a no-op in
    /// any other state.
    pub fn pause(&mut self, now_ms: u64)
        ensures
            pause_rel(*old(self), *final(self), now_ms),
    {
        if self.state == TimerState::Running {
            self.last_remaining = self.remaining_ms(now_ms);
            self.state = TimerState::Paused;
        }
    }
}

/// Relates a timer to what `check_timed_out` at `now_ms` makes of it: an
/// expiry transition exactly when the timer is not yet `Expired` and the
/// deadline has passed, and a no-op otherwise.
pub open spec fn check_expired_rel(pre: TimerData, post: TimerData, now_ms: u64) -> bool {
    if pre.status() != TimerState::Expired && pre.spec_is_expired(now_ms) {
        &&& post.status() == TimerState::Expired
        &&& post.started_at_ms() == pre.started_at_ms()
        &&& post.stored_remaining_ms() == 0
    } else {
        post == pre
    }
}

/// Relates a timer to what `resume` at `now_ms` makes of it: a `Paused`
/// timer starts running from `now_ms` with its stored duration intact, and
/// anything else is left alone.
pub open spec fn resume_rel(pre: TimerData, post: TimerData, now_ms: u64) -> bool {
    if pre.status() == TimerState::Paused {
        &&& post.status() == TimerState::Running
        &&& post.started_at_ms() == now_ms
        &&& post.stored_remaining_ms() == pre.stored_remaining_ms()
    } else {
        post == pre
    }
}

/// Relates a timer to what `pause` at `now_ms` makes of it: a `Running`
/// timer stops with the remaining duration it had at `now_ms`, and anything
/// else is left alone.
pub open spec fn pause_rel(pre: TimerData, post: TimerData, now_ms: u64) -> bool {
    if pre.status() == TimerState::Running {
        &&& post.status() == TimerState::Paused
        &&& post.started_at_ms() == pre.started_at_ms()
        &&& post.stored_remaining_ms() == pre.spec_remaining_ms(now_ms)
    } else {
        post == pre
    }
}

} // verus!
