//! The start/pause button, as far as it exists apart from the UI toolkit.
//!
//! The button holds no state of its own: clicking it is a
//! [`crate::controller::TimerEvent::ButtonClick`] event, and everything else
//! about it — painting, sizing, hit-testing — belongs to the shell.

use vstd::prelude::*;

verus! {

/// A stateless start/pause button.
pub struct StartButton {}

impl StartButton {
    pub fn new() -> (b: Self)
        ensures
            b == (StartButton {  }),
    {
        StartButton {  }
    }
}

} // verus!
