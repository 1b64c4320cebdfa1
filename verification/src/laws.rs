//! The properties the timer model promises, stated and proved once for all
//! inputs.

use vstd::prelude::*;

use crate::data::check_expired_rel;
use crate::data::pause_rel;
use crate::data::resume_rel;
use crate::data::TimerData;
use crate::data::TimerState;

verus! {

/// A `Paused` timer's remaining time is its stored duration, unchanged by
/// the passage of time: the same at every clock reading.
pub proof fn lemma_paused_remaining_is_stored(t: TimerData, now1_ms: u64, now2_ms: u64)
    requires
        t.status() == TimerState::Paused,
    ensures
        t.spec_remaining_secs(now1_ms) == t.stored_remaining_ms() / 1000,
        t.spec_remaining_secs(now1_ms) == t.spec_remaining_secs(now2_ms),
{
}

/// A `Running` timer's remaining time never increases as the clock
/// advances, and never goes below zero.
pub proof fn lemma_running_remaining_nonincreasing(t: TimerData, now1_ms: u64, now2_ms: u64)
    requires
        t.status() == TimerState::Running,
        now1_ms <= now2_ms,
    ensures
        t.spec_remaining_ms(now2_ms) <= t.spec_remaining_ms(now1_ms),
        t.spec_remaining_secs(now2_ms) <= t.spec_remaining_secs(now1_ms),
        t.spec_remaining_ms(now2_ms) >= 0,
{
    vstd::arithmetic::div_mod::lemma_div_is_ordered(
        t.spec_remaining_ms(now2_ms),
        t.spec_remaining_ms(now1_ms),
        1000,
    );
}

/// Pausing a `Running` timer and immediately resuming it leaves the
/// remaining time unchanged: at the shared instant and at every later one.
///
/// `paused` and `resumed` are what `pause` and then `resume`, both at
/// `now_ms`, make of `t`, characterized by those operations' contracts. The
/// clock must not have run backwards past the timer's start.
pub proof fn lemma_pause_then_resume_preserves_remaining(
    t: TimerData,
    paused: TimerData,
    resumed: TimerData,
    now_ms: u64,
    later_ms: u64,
)
    requires
        t.status() == TimerState::Running,
        t.started_at_ms() <= now_ms,
        now_ms <= later_ms,
        pause_rel(t, paused, now_ms),
        resume_rel(paused, resumed, now_ms),
    ensures
        resumed.spec_remaining_ms(later_ms) == t.spec_remaining_ms(later_ms),
        resumed.spec_remaining_secs(later_ms) == t.spec_remaining_secs(later_ms),
{
}

/// `check_timed_out` on a timer whose deadline has passed marks it
/// `Expired`, and the transition is idempotent: a second call, at any clock
/// reading, changes nothing.
///
/// `checked` and `rechecked` are what `check_timed_out` at `now_ms` and then
/// at `later_ms` make of `t`, characterized by that operation's contract.
pub proof fn lemma_check_expired_idempotent(
    t: TimerData,
    checked: TimerData,
    rechecked: TimerData,
    now_ms: u64,
    later_ms: u64,
)
    requires
        t.spec_is_expired(now_ms),
        check_expired_rel(t, checked, now_ms),
        check_expired_rel(checked, rechecked, later_ms),
    ensures
        checked.status() == TimerState::Expired,
        rechecked == checked,
{
}

} // verus!
