//! Laws of the worker state machine: properties that hold across whole
//! runs of events, not just single steps.

use vstd::prelude::*;

use crate::event::EventClass;
use crate::worker::{spec_clear, spec_delta, spec_step, SYSEX_END, WorkerView};

verus! {

/// One event as the worker sees it: its class, its payload bytes and its
/// capture time in microseconds.
pub struct WorkerEvent {
    pub class: EventClass,
    pub payload: Seq<u8>,
    pub micros: int,
}

/// Folds a whole run of events into the worker state, collecting every
/// delivered message in order.
pub open spec fn spec_run(s: WorkerView, events: Seq<WorkerEvent>) -> (WorkerView, Seq<(int, Seq<u8>, int)>)
    decreases events.len(),
{
    if events.len() == 0 {
        (s, Seq::empty())
    } else {
        let e = events[0];
        let (s1, d) = spec_step(s, e.class, e.payload, e.micros);
        let (s2, ds) = spec_run(s1, events.drop_first());
        match d {
            Option::Some(p) => (s2, seq![p] + ds),
            Option::None => (s2, ds),
        }
    }
}

/// The concatenation of a run of payload fragments, in order.
pub open spec fn concat_frags(frags: Seq<Seq<u8>>) -> Seq<u8>
    decreases frags.len(),
{
    if frags.len() == 0 {
        Seq::empty()
    } else {
        frags[0] + concat_frags(frags.drop_first())
    }
}

/// A run of system-exclusive fragments carrying the given payloads at
/// the given capture times.
pub open spec fn sysex_events(frags: Seq<Seq<u8>>, times: Seq<int>) -> Seq<WorkerEvent> {
    Seq::new(frags.len(), |i: int| WorkerEvent { class: EventClass::Sysex, payload: frags[i], micros: times[i] })
}

/// A well-shaped fragmentation of one system-exclusive message: every
/// fragment carries at least one byte, none but the last ends in the
/// terminator, and the last does.
pub open spec fn sysex_fragmentation(frags: Seq<Seq<u8>>) -> bool {
    &&& frags.len() > 0
    &&& forall|i: int| 0 <= i < frags.len() ==> (#[trigger] frags[i]).len() > 0
    &&& forall|i: int| 0 <= i < frags.len() - 1 ==> (#[trigger] frags[i]).last() != SYSEX_END
    &&& frags.last().last() == SYSEX_END
}

/// The first message a worker ever delivers carries a timestamp delta of
/// zero, whatever the event that completed it.
pub proof fn lemma_first_delivery_delta_zero(
    s: WorkerView,
    class: EventClass,
    payload: Seq<u8>,
    t: int,
)
    requires
        s.last_micros is None,
    ensures
        spec_step(s, class, payload, t).1 matches Some(p) ==> p.0 == 0,
{
}

/// A suppressed time-category event is never delivered, and it leaves
/// the suppression flags, the open system-exclusive run and the delta
/// baseline exactly as they were.
pub proof fn lemma_time_ignored(s: WorkerView, payload: Seq<u8>, t: int)
    requires
        s.flags.time,
    ensures
        spec_step(s, EventClass::Time, payload, t).1 is None,
        spec_step(s, EventClass::Time, payload, t).0 == spec_clear(s),
        spec_step(s, EventClass::Time, payload, t).0.last_micros == s.last_micros,
        spec_step(s, EventClass::Time, payload, t).0.flags == s.flags,
        spec_step(s, EventClass::Time, payload, t).0.continue_sysex == s.continue_sysex,
{
}

/// The loop never mutates the connection's configuration: after any
/// run of events whatsoever, the suppression flags are exactly the ones
/// the worker was constructed with.
pub proof fn lemma_run_preserves_flags(s: WorkerView, events: Seq<WorkerEvent>)
    ensures
        spec_run(s, events).0.flags == s.flags,
    decreases events.len(),
{
    if events.len() > 0 {
        let e = events[0];
        let (s1, d) = spec_step(s, e.class, e.payload, e.micros);
        lemma_run_preserves_flags(s1, events.drop_first());
    }
}

/// Timestamps are strictly a function of consecutive delivered
/// messages: over any run, the first delivery's delta is measured
/// against the baseline the run started with, every later delivery's
/// delta is exactly its capture time minus the previous delivery's
/// capture time, and the baseline left behind is the last delivery's
/// capture time — or the original baseline when nothing was delivered,
/// however many suppressed or incomplete events went by.
pub proof fn lemma_deltas_between_consecutive_deliveries(s: WorkerView, events: Seq<WorkerEvent>)
    ensures
        ({
            let (s2, ds) = spec_run(s, events);
            &&& (ds.len() > 0 ==> ds[0].0 == spec_delta(s.last_micros, ds[0].2))
            &&& forall|k: int| 1 <= k < ds.len() ==> (#[trigger] ds[k]).0 == ds[k].2 - ds[k - 1].2
            &&& (ds.len() > 0 ==> s2.last_micros == Option::Some(ds.last().2))
            &&& (ds.len() == 0 ==> s2.last_micros == s.last_micros)
        }),
    decreases events.len(),
{
    if events.len() > 0 {
        let e = events[0];
        let (s1, d) = spec_step(s, e.class, e.payload, e.micros);
        lemma_deltas_between_consecutive_deliveries(s1, events.drop_first());
        let (s2, ds1) = spec_run(s1, events.drop_first());
        if let Option::Some(p) = d {
            let ds = seq![p] + ds1;
            assert(ds[0] == p);
            assert(p.0 == spec_delta(s.last_micros, e.micros) && p.2 == e.micros);
            assert(s1.last_micros == Option::Some(e.micros));
            assert forall|k: int| 1 <= k < ds.len() implies (#[trigger] ds[k]).0 == ds[k].2 - ds[k
                - 1].2 by {
                assert(ds[k] == ds1[k - 1]);
                if k == 1 {
                    assert(ds1[0].0 == spec_delta(s1.last_micros, ds1[0].2));
                } else {
                    assert(ds[k - 1] == ds1[k - 2]);
                }
            }
            if ds1.len() == 0 {
                assert(ds.last() == p);
            } else {
                assert(ds.last() == ds1.last());
            }
        }
    }
}

/// A run of time-category events carrying the given payloads at the
/// given capture times.
pub open spec fn time_events(payloads: Seq<Seq<u8>>, times: Seq<int>) -> Seq<WorkerEvent> {
    Seq::new(
        payloads.len(),
        |i: int| WorkerEvent { class: EventClass::Time, payload: payloads[i], micros: times[i] },
    )
}

/// With time-category events suppressed, a whole run of them delivers
/// nothing, and neither the delta baseline nor an open
/// system-exclusive run is disturbed by it.
pub proof fn lemma_time_run_ignored(s: WorkerView, payloads: Seq<Seq<u8>>, times: Seq<int>)
    requires
        s.flags.time,
        times.len() == payloads.len(),
    ensures
        ({
            let (s2, ds) = spec_run(s, time_events(payloads, times));
            &&& ds.len() == 0
            &&& s2.last_micros == s.last_micros
            &&& s2.flags == s.flags
            &&& s2.continue_sysex == s.continue_sysex
        }),
    decreases payloads.len(),
{
    let events = time_events(payloads, times);
    if payloads.len() > 0 {
        let e = events[0];
        let (s1, d) = spec_step(s, e.class, e.payload, e.micros);
        assert(s1 == spec_clear(s));
        lemma_time_run_ignored(s1, payloads.drop_first(), times.drop_first());
        assert(events.drop_first() =~= time_events(payloads.drop_first(), times.drop_first()));
    }
}

/// Helper for the reassembly law: from the middle of an open
/// system-exclusive run, a well-shaped remainder of fragments produces
/// exactly one delivery, whose bytes are the accumulated prefix followed
/// by the remaining fragments in order.
proof fn lemma_sysex_run_open(s: WorkerView, frags: Seq<Seq<u8>>, times: Seq<int>)
    requires
        !s.flags.sysex,
        s.continue_sysex,
        s.message.len() > 0,
        sysex_fragmentation(frags),
        times.len() == frags.len(),
    ensures
        ({
            let (s2, ds) = spec_run(s, sysex_events(frags, times));
            &&& ds.len() == 1
            &&& ds[0].1 == s.message + concat_frags(frags)
            &&& ds[0].0 == spec_delta(s.last_micros, times.last())
            &&& s2 == (WorkerView {
                flags: s.flags,
                message: Seq::empty(),
                continue_sysex: false,
                last_micros: Option::Some(times.last()),
            })
        }),
    decreases frags.len(),
{
    let events = sysex_events(frags, times);
    let e = events[0];
    let (s1, d) = spec_step(s, e.class, e.payload, e.micros);
    assert(spec_clear(s) == s);
    if frags.len() == 1 {
        let msg1 = s.message + frags[0];
        assert(msg1.last() == SYSEX_END);
        assert(s1 == (WorkerView {
            flags: s.flags,
            message: Seq::empty(),
            continue_sysex: false,
            last_micros: Option::Some(times[0]),
        }));
        assert(d == Option::Some((spec_delta(s.last_micros, times[0]), msg1, times[0])));
        assert(events.drop_first().len() == 0);
        assert(spec_run(s1, events.drop_first()).0 == s1);
        assert(spec_run(s1, events.drop_first()).1 == Seq::<(int, Seq<u8>, int)>::empty());
        let p = (spec_delta(s.last_micros, times[0]), msg1, times[0]);
        assert(spec_run(s, events).1 =~= seq![p]);
        assert(concat_frags(frags.drop_first()) =~= Seq::<u8>::empty());
        assert(concat_frags(frags) =~= frags[0]);
        assert(s.message + concat_frags(frags) =~= msg1);
        assert(times.last() == times[0]);
    } else {
        assert(frags[0].last() != SYSEX_END);
        assert((s.message + frags[0]).last() == frags[0].last());
        assert(d is None);
        assert(s1.message == s.message + frags[0]);
        assert(s1.continue_sysex);
        assert(s1.message.len() > 0);
        lemma_sysex_run_open(s1, frags.drop_first(), times.drop_first());
        assert(events.drop_first() =~= sysex_events(frags.drop_first(), times.drop_first()));
        assert(spec_run(s, events).0 == spec_run(s1, events.drop_first()).0);
        assert(spec_run(s, events).1 == spec_run(s1, events.drop_first()).1);
        assert(s.message + frags[0] + concat_frags(frags.drop_first()) =~= s.message + concat_frags(
            frags,
        ));
        assert(frags.drop_first().last() == frags.last());
        assert(times.drop_first().last() == times.last());
    }
}

/// Reassembly of a fragmented system-exclusive message: starting outside
/// any open run, a payload split into fragments of which only the last
/// ends in the terminator yields exactly one delivery, whose bytes are
/// the concatenation of all the fragments in order.
pub proof fn lemma_sysex_reassembly(s: WorkerView, frags: Seq<Seq<u8>>, times: Seq<int>)
    requires
        !s.flags.sysex,
        !s.continue_sysex,
        sysex_fragmentation(frags),
        times.len() == frags.len(),
    ensures
        ({
            let (s2, ds) = spec_run(s, sysex_events(frags, times));
            &&& ds.len() == 1
            &&& ds[0].1 == concat_frags(frags)
            &&& s2.message.len() == 0
            &&& !s2.continue_sysex
            &&& s2.flags == s.flags
        }),
{
    let events = sysex_events(frags, times);
    let e = events[0];
    let (s1, d) = spec_step(s, e.class, e.payload, e.micros);
    assert(spec_clear(s).message =~= Seq::<u8>::empty());
    assert(Seq::<u8>::empty() + frags[0] =~= frags[0]);
    if frags.len() == 1 {
        assert(frags[0].last() == SYSEX_END);
        assert(s1 == (WorkerView {
            flags: s.flags,
            message: Seq::empty(),
            continue_sysex: false,
            last_micros: Option::Some(times[0]),
        }));
        assert(d == Option::Some((spec_delta(s.last_micros, times[0]), frags[0], times[0])));
        assert(events.drop_first().len() == 0);
        assert(spec_run(s1, events.drop_first()).0 == s1);
        assert(spec_run(s1, events.drop_first()).1 == Seq::<(int, Seq<u8>, int)>::empty());
        let p = (spec_delta(s.last_micros, times[0]), frags[0], times[0]);
        assert(spec_run(s, events).1 =~= seq![p]);
        assert(concat_frags(frags.drop_first()) =~= Seq::<u8>::empty());
        assert(concat_frags(frags) =~= frags[0]);
    } else {
        assert(frags[0].last() != SYSEX_END);
        assert(d is None);
        assert(s1.message == frags[0]);
        assert(s1.continue_sysex);
        assert(s1.message.len() > 0);
        lemma_sysex_run_open(s1, frags.drop_first(), times.drop_first());
        assert(events.drop_first() =~= sysex_events(frags.drop_first(), times.drop_first()));
        assert(spec_run(s, events).0 == spec_run(s1, events.drop_first()).0);
        assert(spec_run(s, events).1 == spec_run(s1, events.drop_first()).1);
        assert(frags[0] + concat_frags(frags.drop_first()) =~= concat_frags(frags));
    }
}

} // verus!
