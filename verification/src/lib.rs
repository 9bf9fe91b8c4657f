//! Core logic of a real-time MIDI connection layer.
//!
//! The library models the state that a MIDI backend threads through its
//! host-sequencer calls: which event categories a connection ignores, how
//! fragmented system-exclusive payloads are reassembled into one message,
//! how consecutive deliveries are timestamped, how the output send path
//! manages its encode buffer, and in which order a connection may be torn
//! down. The host sequencer itself (port enumeration, event transport,
//! encoding hardware bytes) is driven by an unverified shell that feeds
//! plain values into these verified functions and carries their decisions
//! back out.

pub mod errors;
pub mod event;
pub mod flags;
pub mod lifecycle;
pub mod sender;
pub mod worker;
pub mod worker_laws;

pub use flags::Ignore;

