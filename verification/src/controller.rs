//! The tick/UI controller: turns the two event kinds the shell delivers —
//! periodic clock ticks and the start/pause button — into timer transitions
//! and tells the shell what to do next.
//!
//! The shell owns the event loop and the clock; it calls [`handle_event`]
//! with the current clock reading and then acts on the returned command:
//! schedule the next tick after [`TICK_INTERVAL_MS`], and repaint the label.

use vstd::prelude::*;

use crate::data::check_expired_rel;
use crate::data::pause_rel;
use crate::data::resume_rel;
use crate::data::TimerData;
use crate::data::TimerState;

verus! {

/// How long after a tick the next tick is requested, in milliseconds.
pub const TICK_INTERVAL_MS: u64 = 200;

/// The events the controller reacts to.
#[derive(Clone, Copy, PartialEq, Eq, Structural, Debug)]
pub enum TimerEvent {
    /// The window has connected; the tick cycle must be started.
    Connected,
    /// A scheduled tick fired.
    Tick,
    /// The start/pause button was clicked.
    ButtonClick,
}

/// What the shell should do after an event is handled.
#[derive(Clone, Copy, PartialEq, Eq, Structural, Debug)]
pub struct ControlCommand {
    /// Request another tick after [`TICK_INTERVAL_MS`].
    pub schedule_tick: bool,
    /// Refresh the displayed label.
    pub refresh_display: bool,
}

/// Relates a timer to what a button click at `now_ms` makes of it: a
/// `Running` timer is paused, a `Paused` one resumed, and an `Expired` one
/// left alone.
pub open spec fn button_click_rel(pre: TimerData, post: TimerData, now_ms: u64) -> bool {
    if pre.status() == TimerState::Running {
        pause_rel(pre, post, now_ms)
    } else if pre.status() == TimerState::Paused {
        resume_rel(pre, post, now_ms)
    } else {
        post == pre
    }
}

/// Applies one event to the timer at clock reading `now_ms`.
///
/// A tick first records expiry, then asks for the next tick and a repaint
/// regardless of the resulting state: a paused or expired timer keeps
/// ticking and simply keeps displaying the same value. A button click
/// toggles between `Running` and `Paused` and relies on the tick cycle for
/// the repaint.
pub fn handle_event(data: &mut TimerData, event: TimerEvent, now_ms: u64) -> (cmd: ControlCommand)
    ensures
        event == TimerEvent::Connected ==> *final(data) == *old(data) && cmd == (ControlCommand {
            schedule_tick: true,
            refresh_display: false,
        }),
        event == TimerEvent::Tick ==> check_expired_rel(*old(data), *final(data), now_ms) && cmd
            == (ControlCommand { schedule_tick: true, refresh_display: true }),
        event == TimerEvent::ButtonClick ==> button_click_rel(*old(data), *final(data), now_ms)
            && cmd == (ControlCommand { schedule_tick: false, refresh_display: false }),
{
    match event {
        TimerEvent::Connected => ControlCommand { schedule_tick: true, refresh_display: false },
        TimerEvent::Tick => {
            data.check_timed_out(now_ms);
            ControlCommand { schedule_tick: true, refresh_display: true }
        },
        TimerEvent::ButtonClick => {
            match data.get_state() {
                TimerState::Running => data.pause(now_ms),
                TimerState::Paused => data.resume(now_ms),
                TimerState::Expired => (),
            }
            ControlCommand { schedule_tick: false, refresh_display: false }
        },
    }
}

} // verus!
