//! Per-connection configuration of which incoming event categories are
//! dropped before message assembly.

use vstd::prelude::*;

verus! {

/// A set of event categories that an input connection suppresses.
///
/// The set is chosen when a connection is opened and is immutable
/// afterwards; the input worker consults it for every event.
#[derive(Clone, Copy, PartialEq, Eq, Structural, Debug)]
pub struct Ignore {
    /// Drop system-exclusive fragments.
    pub sysex: bool,
    /// Drop time-category events (clock, tick, quarter-frame).
    pub time: bool,
    /// Drop active-sensing events.
    pub active_sense: bool,
}

impl Ignore {
    /// The empty set: every event category is delivered.
    pub fn none() -> (r: Ignore)
        ensures
            !r.sysex,
            !r.time,
            !r.active_sense,
    {
        Ignore { sysex: false, time: false, active_sense: false }
    }

    /// The full set: system-exclusive, time and active-sensing events
    /// are all dropped.
    pub fn all() -> (r: Ignore)
        ensures
            r.sysex,
            r.time,
            r.active_sense,
    {
        Ignore { sysex: true, time: true, active_sense: true }
    }
}

} // verus!
