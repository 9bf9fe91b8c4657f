use midir::event::{EventClass, EventTime};
use midir::flags::Ignore;
use midir::worker::WorkerState;

fn at(secs: u32, nsecs: u32) -> EventTime {
    EventTime { secs, nsecs }
}

#[test]
fn first_delivery_has_zero_delta() {
    let mut w = WorkerState::new(Ignore::none());
    let d = w
        .process_event(EventClass::Other, &[0x90, 60, 100], at(5, 123_000_000))
        .expect("a complete message must be delivered");
    assert_eq!(d.delta_micros, 0);
    assert_eq!(d.bytes, vec![0x90, 60, 100]);
}

#[test]
fn consecutive_deliveries_report_elapsed_micros() {
    let mut w = WorkerState::new(Ignore::none());
    let d1 = w
        .process_event(EventClass::Other, &[0x90, 60, 100], at(1, 0))
        .expect("first message");
    assert_eq!(d1.delta_micros, 0);
    let d2 = w
        .process_event(EventClass::Other, &[0x80, 60, 0], at(1, 2_500_000))
        .expect("second message");
    assert_eq!(d2.delta_micros, 2500);
    assert_eq!((d2.delta_micros as f64) * 0.000001, 0.0025);
}

#[test]
fn sysex_fragments_deliver_once_concatenated() {
    let mut w = WorkerState::new(Ignore::none());
    assert!(w
        .process_event(EventClass::Sysex, &[0xF0, 1, 2], at(2, 0))
        .is_none());
    assert!(w.mid_sysex());
    assert!(w
        .process_event(EventClass::Sysex, &[3, 4], at(2, 1000))
        .is_none());
    let d = w
        .process_event(EventClass::Sysex, &[5, 0xF7], at(2, 2000))
        .expect("terminated run must be delivered");
    assert_eq!(d.bytes, vec![0xF0, 1, 2, 3, 4, 5, 0xF7]);
    assert_eq!(d.delta_micros, 0);
    assert!(!w.mid_sysex());
}

#[test]
fn single_terminated_sysex_fragment_delivers_immediately() {
    let mut w = WorkerState::new(Ignore::none());
    let d = w
        .process_event(EventClass::Sysex, &[0xF0, 9, 0xF7], at(0, 0))
        .expect("complete sysex message");
    assert_eq!(d.bytes, vec![0xF0, 9, 0xF7]);
}

#[test]
fn suppressed_sysex_fragments_deliver_nothing() {
    let mut w = WorkerState::new(Ignore {
        sysex: true,
        time: false,
        active_sense: false,
    });
    assert!(w
        .process_event(EventClass::Sysex, &[0xF0, 1], at(0, 0))
        .is_none());
    assert!(w
        .process_event(EventClass::Sysex, &[2, 0xF7], at(0, 1000))
        .is_none());
    assert!(!w.mid_sysex());
}

#[test]
fn suppressed_time_events_do_not_move_the_baseline() {
    let mut w = WorkerState::new(Ignore {
        sysex: false,
        time: true,
        active_sense: false,
    });
    let d1 = w
        .process_event(EventClass::Other, &[0x90, 60, 100], at(1, 0))
        .expect("first message");
    assert_eq!(d1.delta_micros, 0);
    // A clock tick arrives while time events are suppressed: no
    // delivery, and the baseline stays at the first message's time.
    assert!(w
        .process_event(EventClass::Time, &[], at(1, 500_000))
        .is_none());
    assert_eq!(w.last_micros(), Some(1_000_000));
    let d2 = w
        .process_event(EventClass::Other, &[0x80, 60, 0], at(2, 0))
        .expect("second message");
    assert_eq!(d2.delta_micros, 1_000_000);
}

#[test]
fn unsuppressed_time_event_is_delivered() {
    let mut w = WorkerState::new(Ignore::none());
    let d = w
        .process_event(EventClass::Time, &[0xF8], at(0, 0))
        .expect("clock byte must be delivered");
    assert_eq!(d.bytes, vec![0xF8]);
}

#[test]
fn suppressed_active_sense_is_dropped() {
    let mut w = WorkerState::new(Ignore {
        sysex: false,
        time: false,
        active_sense: true,
    });
    assert!(w
        .process_event(EventClass::ActiveSense, &[0xFE], at(0, 0))
        .is_none());
    assert_eq!(w.last_micros(), None);
}

#[test]
fn subscription_notices_are_never_delivered() {
    let mut w = WorkerState::new(Ignore::none());
    assert!(w
        .process_event(EventClass::SubscriptionChange, &[], at(0, 0))
        .is_none());
    assert_eq!(w.last_micros(), None);
}

#[test]
fn empty_decoder_output_delivers_nothing() {
    let mut w = WorkerState::new(Ignore::none());
    assert!(w.process_event(EventClass::Other, &[], at(0, 0)).is_none());
}

#[test]
fn decode_is_wanted_exactly_for_unsuppressed_decodable_classes() {
    let all = WorkerState::new(Ignore::all());
    let none = WorkerState::new(Ignore::none());
    assert!(!none.wants_decode(EventClass::SubscriptionChange));
    assert!(!none.wants_decode(EventClass::Sysex));
    assert!(none.wants_decode(EventClass::Time));
    assert!(none.wants_decode(EventClass::ActiveSense));
    assert!(none.wants_decode(EventClass::Other));
    assert!(!all.wants_decode(EventClass::Time));
    assert!(!all.wants_decode(EventClass::ActiveSense));
    assert!(all.wants_decode(EventClass::Other));
}

#[test]
fn suppressed_clock_inside_a_sysex_run_leaves_the_run_intact() {
    let mut w = WorkerState::new(Ignore {
        sysex: false,
        time: true,
        active_sense: false,
    });
    assert!(w
        .process_event(EventClass::Sysex, &[0xF0, 1], at(1, 0))
        .is_none());
    assert!(w.mid_sysex());
    // A suppressed clock tick in the middle of the run contributes
    // nothing and closes nothing.
    assert!(w.process_event(EventClass::Time, &[], at(1, 100)).is_none());
    assert!(w.mid_sysex());
    let d = w
        .process_event(EventClass::Sysex, &[2, 0xF7], at(1, 200))
        .expect("run ends with the terminator");
    assert_eq!(d.bytes, vec![0xF0, 1, 2, 0xF7]);
}

#[test]
fn terminator_position_matters_only_at_the_fragment_end() {
    let mut w = WorkerState::new(Ignore::none());
    // A terminator byte in the middle of a fragment does not close the
    // run; only the final byte is examined.
    assert!(w
        .process_event(EventClass::Sysex, &[0xF0, 0xF7, 1], at(0, 0))
        .is_none());
    assert!(w.mid_sysex());
    let d = w
        .process_event(EventClass::Sysex, &[0xF7], at(0, 1000))
        .expect("now the fragment ends in the terminator");
    assert_eq!(d.bytes, vec![0xF0, 0xF7, 1, 0xF7]);
}

#[test]
fn flags_survive_the_whole_run() {
    let flags = Ignore {
        sysex: false,
        time: true,
        active_sense: true,
    };
    let mut w = WorkerState::new(flags);
    w.process_event(EventClass::Other, &[0x90, 60, 100], at(1, 0));
    w.process_event(EventClass::Sysex, &[0xF0, 1], at(2, 0));
    w.process_event(EventClass::Sysex, &[0xF7], at(3, 0));
    assert_eq!(w.flags(), flags);
}

#[test]
fn event_time_collapses_to_micros() {
    assert_eq!(at(1, 2_500_000).micros(), 1_002_500);
    assert_eq!(at(0, 999).micros(), 0);
    assert_eq!(at(u32::MAX, 999_999_999).micros(), u32::MAX as u64 * 1_000_000 + 999_999);
}
