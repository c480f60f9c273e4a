//! The two modes and the in-memory boolean that each of them owns.

use vstd::prelude::*;

verus! {

/// One of the independent binary modes.
#[derive(Clone, Copy, Debug, PartialEq, Eq, Structural)]
pub enum ModeId {
    /// Recorded on disk by the presence of a file.
    Silence,
    /// Recorded on disk by the content of a file.
    Maintenance,
}

/// The in-memory value of one mode. Each mode owns an instance of its own;
/// the shell guards each behind its own lock and lends it out only for the
/// duration of a call.
#[derive(Debug)]
pub struct ModeState {
    enabled: bool,
}

impl View for ModeState {
    type V = bool;

    closed spec fn view(&self) -> bool {
        self.enabled
    }
}

/// The value of a mode that started at `start` and was flipped `toggles` times.
pub open spec fn flipped(start: bool, toggles: nat) -> bool {
    if toggles % 2 == 0 {
        start
    } else {
        !start
    }
}

impl ModeState {
    /// A mode that is off, as every mode is when the controller starts.
    pub fn new() -> (state: ModeState)
        ensures
            state@ == false,
    {
        ModeState { enabled: false }
    }

    /// The current value.
    pub fn enabled(&self) -> (value: bool)
        ensures
            value == self@,
    {
        self.enabled
    }

    /// Flips the mode and returns the new value. Cannot fail.
    pub fn toggle(&mut self) -> (new_value: bool)
        ensures
            final(self)@ == !old(self)@,
            new_value == final(self)@,
    {
        self.enabled = !self.enabled;
        self.enabled
    }

    /// Overwrites the value; used when a persisted value is taken over.
    pub fn set(&mut self, value: bool)
        ensures
            final(self)@ == value,
    {
        self.enabled = value;
    }
}

/// One more flip inverts the value reached so far.
pub proof fn lemma_flipped_step(start: bool, toggles: nat)
    ensures
        flipped(start, toggles + 1) == !flipped(start, toggles),
        flipped(start, 0) == start,
{
}

} // verus!
