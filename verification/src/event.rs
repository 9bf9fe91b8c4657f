//! Plain-value model of one captured sequencer event: its category and the
//! time the host queue stamped on it.

use vstd::prelude::*;

verus! {

/// The capture time of an event: seconds and nanoseconds since the queue's
/// (arbitrary, but monotonically increasing) epoch.
#[derive(Clone, Copy, PartialEq, Eq, Structural, Debug)]
pub struct EventTime {
    pub secs: u32,
    pub nsecs: u32,
}

impl EventTime {
    /// The capture time collapsed to microseconds.
    pub open spec fn spec_micros(self) -> int {
        self.secs * 1_000_000 + self.nsecs / 1_000
    }

    /// Converts the two-field time to microseconds. The result fits a
    /// `u64` because both fields are 32 bits wide.
    pub fn micros(&self) -> (r: u64)
        ensures
            r == self.spec_micros(),
    {
        (self.secs as u64) * 1_000_000 + (self.nsecs as u64) / 1_000
    }
}

/// The category an incoming sequencer event falls under. The worker treats
/// every event through this classification; the raw payload travels beside
/// it.
#[derive(Clone, Copy, PartialEq, Eq, Structural, Debug)]
pub enum EventClass {
    /// A subscription made or broken: informational, never decoded into
    /// message bytes.
    SubscriptionChange,
    /// A time-category event: clock, tick or quarter-frame.
    Time,
    /// An active-sensing event.
    ActiveSense,
    /// A system-exclusive fragment whose raw bytes arrive outside the
    /// general decoder.
    Sysex,
    /// Every other event type, decoded into raw MIDI bytes by the general
    /// decoder.
    Other,
}

} // verus!
