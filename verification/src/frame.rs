//! Decisions of the event loop: when the program exits, and when the
//! grid of tiles is redrawn.
//!
//! The loop outside this crate polls input and reads the clock; it hands
//! each event and each elapsed time in here, and this module decides.

use vstd::prelude::*;

verus! {

/// How long a drawn frame stays on the screen before the next redraw,
/// in milliseconds.
pub const REDRAW_INTERVAL_MS: u64 = 2000;

/// An input event, reduced to what the loop decides on.
#[derive(Clone, Copy, PartialEq, Eq, Structural, Debug)]
pub enum InputEvent {
    /// The window was asked to close.
    Quit,
    /// The escape key was pressed.
    EscapePressed,
    /// Some other key was pressed.
    OtherKeyPressed,
    /// Anything else the event pump reports.
    Other,
}

/// Whether an event ends the program: a quit request or the escape key
/// does, nothing else.
pub open spec fn spec_should_exit(e: InputEvent) -> bool {
    e is Quit || e is EscapePressed
}

/// Decide whether `e` ends the program.
pub fn should_exit(e: InputEvent) -> (exit: bool)
    ensures
        exit == spec_should_exit(e),
{
    match e {
        InputEvent::Quit => true,
        InputEvent::EscapePressed => true,
        _ => false,
    }
}

/// Decides when the grid is redrawn: once immediately at start, then
/// once each time more than `REDRAW_INTERVAL_MS` has elapsed since the
/// clock was last restarted.
#[derive(Clone, Copy, PartialEq, Eq, Structural, Debug)]
pub struct RedrawTimer {
    /// Whether a redraw is owed and has not been performed yet.
    pub redraw_pending: bool,
}

impl RedrawTimer {
    /// A fresh timer owes the first redraw at once.
    pub fn new() -> (t: RedrawTimer)
        ensures
            t.redraw_pending,
    {
        RedrawTimer { redraw_pending: true }
    }

    /// Whether a redraw is owed now.
    pub fn should_redraw(&self) -> (b: bool)
        ensures
            b == self.redraw_pending,
    {
        self.redraw_pending
    }

    /// Record that the owed redraw was performed: none is owed until
    /// the interval next elapses.
    pub fn mark_drawn(&mut self)
        ensures
            !final(self).redraw_pending,
    {
        self.redraw_pending = false;
    }

    /// Feed in the time elapsed since the clock was last restarted.
    /// Once more than the interval has elapsed, a redraw becomes owed
    /// and the caller must restart its clock; the result says whether
    /// to do so. An already owed redraw stays owed.
    pub fn on_clock(&mut self, elapsed_ms: u64) -> (restart: bool)
        ensures
            restart == (elapsed_ms > REDRAW_INTERVAL_MS),
            final(self).redraw_pending == (old(self).redraw_pending || elapsed_ms
                > REDRAW_INTERVAL_MS),
    {
        if elapsed_ms > REDRAW_INTERVAL_MS {
            self.redraw_pending = true;
            true
        } else {
            false
        }
    }
}

} // verus!
