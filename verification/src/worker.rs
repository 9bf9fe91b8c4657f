//! The input worker's event-processing state machine.
//!
//! The worker owns a message buffer, a "system-exclusive run in progress"
//! flag and the capture time of the previously delivered message. Each
//! incoming sequencer event is folded into that state; when the fold
//! completes a message, the worker hands it out together with the time
//! elapsed, in microseconds, since the previous delivery (zero for the
//! first). The blocking wait, the event pull and the callback invocation
//! live outside; this module decides everything in between.

use vstd::prelude::*;

use crate::event::{EventClass, EventTime};
use crate::flags::Ignore;

verus! {

/// The terminator byte that closes a system-exclusive message.
pub const SYSEX_END: u8 = 0xF7;

/// One complete message, ready for the user callback.
pub struct Delivery {
    /// Microseconds elapsed since the previous delivered message, or zero
    /// for the first delivery on this connection.
    pub delta_micros: u64,
    /// The raw MIDI bytes of the message.
    pub bytes: Vec<u8>,
}

/// The mathematical state of a worker: what the executable state denotes.
pub struct WorkerView {
    /// The event categories this connection suppresses.
    pub flags: Ignore,
    /// The bytes assembled so far for the message under construction.
    pub message: Seq<u8>,
    /// Whether a system-exclusive run is still waiting for its terminator.
    pub continue_sysex: bool,
    /// Capture time, in microseconds, of the last delivered message.
    pub last_micros: Option<int>,
}

impl WorkerView {
    /// The state is well formed: a pending system-exclusive run always
    /// has at least the bytes already accumulated.
    pub open spec fn wf(self) -> bool {
        self.continue_sysex ==> self.message.len() > 0
    }
}

/// Whether an event of this class contributes bytes to the message under
/// construction, given the connection's suppression flags.
pub open spec fn spec_appends(flags: Ignore, class: EventClass) -> bool {
    match class {
        EventClass::SubscriptionChange => false,
        EventClass::Time => !flags.time,
        EventClass::ActiveSense => !flags.active_sense,
        EventClass::Sysex => !flags.sysex,
        EventClass::Other => true,
    }
}

/// Whether an event of this class must be run through the general
/// decoder before it reaches the worker. System-exclusive fragments
/// arrive as raw bytes and bypass the decoder; subscription notices are
/// never decoded; time and active-sensing events are decoded only when
/// not suppressed.
pub open spec fn spec_wants_decode(flags: Ignore, class: EventClass) -> bool {
    match class {
        EventClass::SubscriptionChange => false,
        EventClass::Time => !flags.time,
        EventClass::ActiveSense => !flags.active_sense,
        EventClass::Sysex => false,
        EventClass::Other => true,
    }
}

/// Discards a finished message before the next event is folded in; a
/// pending system-exclusive run keeps its bytes.
pub open spec fn spec_clear(s: WorkerView) -> WorkerView {
    if s.continue_sysex {
        s
    } else {
        WorkerView {
            flags: s.flags,
            message: Seq::empty(),
            continue_sysex: s.continue_sysex,
            last_micros: s.last_micros,
        }
    }
}

/// The worker state after one event's bytes have been folded in, before
/// the delivery decision.
pub open spec fn spec_after_event(s: WorkerView, class: EventClass, payload: Seq<u8>) -> WorkerView {
    let s1 = spec_clear(s);
    if spec_appends(s.flags, class) {
        let message = s1.message + payload;
        let continue_sysex = if class is Sysex {
            message.last() != SYSEX_END
        } else {
            s1.continue_sysex
        };
        WorkerView { flags: s1.flags, message, continue_sysex, last_micros: s1.last_micros }
    } else {
        s1
    }
}

/// A message is handed out once it is non-empty and no system-exclusive
/// run is still open.
pub open spec fn spec_delivers(s: WorkerView) -> bool {
    s.message.len() > 0 && !s.continue_sysex
}

/// The timestamp attached to a delivery: the microseconds elapsed since
/// the previous one, or zero for the first.
pub open spec fn spec_delta(last_micros: Option<int>, t: int) -> int {
    match last_micros {
        Option::None => 0,
        Option::Some(l) => t - l,
    }
}

/// One step of the worker: fold an event captured at `t` microseconds
/// into state `s`, and say whether a message is delivered. A delivery
/// carries its timestamp delta, its bytes, and the capture time that
/// becomes the next delta baseline. Suppressed events leave the
/// baseline untouched, because no message is delivered for them.
pub open spec fn spec_step(s: WorkerView, class: EventClass, payload: Seq<u8>, t: int) -> (
    WorkerView,
    Option<(int, Seq<u8>, int)>,
) {
    let s2 = spec_after_event(s, class, payload);
    if spec_delivers(s2) {
        (
            WorkerView {
                flags: s2.flags,
                message: Seq::empty(),
                continue_sysex: s2.continue_sysex,
                last_micros: Option::Some(t),
            },
            Option::Some((spec_delta(s.last_micros, t), s2.message, t)),
        )
    } else {
        (s2, Option::None)
    }
}

/// The per-connection state the input worker threads through its loop.
///
/// It is created when a connection is opened, moved into the worker, and
/// moved back to the closer when the worker exits; the suppression flags
/// never change in between.
pub struct WorkerState {
    flags: Ignore,
    message: Vec<u8>,
    continue_sysex: bool,
    last_micros: Option<u64>,
}

impl View for WorkerState {
    type V = WorkerView;

    closed spec fn view(&self) -> WorkerView {
        WorkerView {
            flags: self.flags,
            message: self.message@,
            continue_sysex: self.continue_sysex,
            last_micros: match self.last_micros {
                Option::None => Option::None,
                Option::Some(t) => Option::Some(t as int),
            },
        }
    }
}

impl WorkerState {
    /// A fresh worker: empty message, no open system-exclusive run, no
    /// previous delivery.
    pub fn new(flags: Ignore) -> (r: WorkerState)
        ensures
            r@ == (WorkerView {
                flags,
                message: Seq::empty(),
                continue_sysex: false,
                last_micros: Option::None,
            }),
            r@.wf(),
    {
        let r = WorkerState { flags, message: Vec::new(), continue_sysex: false, last_micros: None };
        proof {
            assert(r@.message =~= Seq::<u8>::empty());
        }
        r
    }

    /// The suppression flags this worker was constructed with.
    pub fn flags(&self) -> (r: Ignore)
        ensures
            r == self@.flags,
    {
        self.flags
    }

    /// Capture time of the last delivered message, in microseconds.
    pub fn last_micros(&self) -> (r: Option<u64>)
        ensures
            match r {
                Option::None => self@.last_micros is None,
                Option::Some(t) => self@.last_micros == Option::Some(t as int),
            },
    {
        self.last_micros
    }

    /// Whether a system-exclusive run is waiting for its terminator.
    pub fn mid_sysex(&self) -> (r: bool)
        ensures
            r == self@.continue_sysex,
    {
        self.continue_sysex
    }

    /// Whether an event of this class must be run through the general
    /// decoder before being handed to [`WorkerState::process_event`].
    pub fn wants_decode(&self, class: EventClass) -> (r: bool)
        ensures
            r == spec_wants_decode(self@.flags, class),
    {
        match class {
            EventClass::SubscriptionChange => false,
            EventClass::Time => !self.flags.time,
            EventClass::ActiveSense => !self.flags.active_sense,
            EventClass::Sysex => false,
            EventClass::Other => true,
        }
    }

    /// Folds one event into the worker state and returns the completed
    /// message, if this event completed one.
    ///
    /// `payload` carries the event's bytes: the raw fragment data for a
    /// system-exclusive event, and the general decoder's output (possibly
    /// empty) for any class for which [`WorkerState::wants_decode`] said
    /// so. The queue clock is monotonic, so each event's capture time is
    /// at least that of the last delivered message; and a
    /// system-exclusive fragment that opens a run carries at least one
    /// byte.
    pub fn process_event(&mut self, class: EventClass, payload: &[u8], time: EventTime) -> (r:
        Option<Delivery>)
        requires
            old(self)@.wf(),
            class is Sysex && !old(self)@.flags.sysex && !old(self)@.continue_sysex
                ==> payload@.len() > 0,
            old(self)@.last_micros matches Some(l) ==> l <= time.spec_micros(),
        ensures
            final(self)@.wf(),
            final(self)@.flags == old(self)@.flags,
            ({
                let (s2, d) = spec_step(old(self)@, class, payload@, time.spec_micros());
                &&& final(self)@ == s2
                &&& match d {
                    Option::Some(p) => {
                        &&& r matches Some(del)
                        &&& del.delta_micros == p.0
                        &&& del.bytes@ == p.1
                    },
                    Option::None => r is None,
                }
            }),
            old(self)@.last_micros is None ==> (r matches Some(del) ==> del.delta_micros == 0),
    {
        if !self.continue_sysex {
            self.message.clear();
        }
        let appends: bool = match class {
            EventClass::SubscriptionChange => false,
            EventClass::Time => !self.flags.time,
            EventClass::ActiveSense => !self.flags.active_sense,
            EventClass::Sysex => !self.flags.sysex,
            EventClass::Other => true,
        };
        if appends {
            let ghost cleared: Seq<u8> = self.message@;
            self.message.extend_from_slice(payload);
            proof {
                assert(self.message@ =~= cleared + payload@);
            }
            if matches!(class, EventClass::Sysex) {
                let last: u8 = self.message[self.message.len() - 1];
                self.continue_sysex = last != SYSEX_END;
            }
        }
        if self.message.len() == 0 || self.continue_sysex {
            return None;
        }
        let t: u64 = time.micros();
        let delta: u64 = match self.last_micros {
            None => 0,
            Some(l) => t - l,
        };
        self.last_micros = Some(t);
        let mut bytes: Vec<u8> = Vec::new();
        core::mem::swap(&mut bytes, &mut self.message);
        proof {
            assert(self.message@ =~= Seq::<u8>::empty());
        }
        Some(Delivery { delta_micros: delta, bytes })
    }
}

} // verus!
