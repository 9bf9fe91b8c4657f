//! Connection setup checks and the cooperative teardown protocol.
//!
//! Opening a connection validates the caller's inputs before any host
//! resource is touched for the port: an out-of-range port index and a
//! port name with an embedded null byte are rejected with the original
//! object handed back untouched. Closing follows a fixed order: request
//! the stop, join the worker, and only then release the handles.

use vstd::prelude::*;

use crate::errors::{ConnectError, ConnectErrorKind, InitError, PortInfoError};

verus! {

/// A port name may cross into the host API only without embedded null
/// bytes.
pub open spec fn spec_name_ok(name: Seq<u8>) -> bool {
    forall|i: int| 0 <= i < name.len() ==> name[i] != 0
}

/// Checks a port name for embedded null bytes.
pub fn validate_port_name(name: &[u8]) -> (r: bool)
    ensures
        r == spec_name_ok(name@),
{
    let mut i: usize = 0;
    while i < name.len()
        invariant
            i <= name@.len(),
            forall|j: int| 0 <= j < i ==> name@[j] != 0,
        decreases name@.len() - i,
    {
        if name[i] == 0 {
            return false;
        }
        i += 1;
    }
    true
}

/// The client-name check made before registering with the host
/// service: a name with an embedded null byte cannot cross the host
/// API and fails construction.
pub fn check_client_name(name: &[u8]) -> (r: Result<(), InitError>)
    ensures
        r is Ok <==> spec_name_ok(name@),
{
    if validate_port_name(name) {
        Ok(())
    } else {
        Err(InitError)
    }
}

/// The port-index check of the query path: an index at or past the
/// number of matching ports names no port.
pub fn check_port_number(port_number: usize, port_count: usize) -> (r: Result<(), PortInfoError>)
    ensures
        r is Ok <==> port_number < port_count,
        port_number >= port_count ==> r == Err::<(), PortInfoError>(
            PortInfoError::PortNumberOutOfRange,
        ),
{
    if port_number < port_count {
        Ok(())
    } else {
        Err(PortInfoError::PortNumberOutOfRange)
    }
}

/// The pre-connect checks for connecting to an existing port, in the
/// order the connect path makes them: the port index against the number
/// of matching ports first, the port name second. On any failure the
/// not-yet-consumed object rides back to the caller inside the error,
/// so a failed connect never costs the caller its handle; in
/// particular, an out-of-range index is reported before any port is
/// created.
pub fn precheck_connect<T>(obj: T, port_number: usize, port_count: usize, port_name: &[u8]) -> (r:
    Result<T, ConnectError<T>>)
    ensures
        port_number < port_count && spec_name_ok(port_name@) ==> (r matches Ok(o) && o == obj),
        port_number >= port_count ==> (r matches Err(e) && e.kind
            == ConnectErrorKind::PortNumberOutOfRange && e.inner == obj),
        port_number < port_count && !spec_name_ok(port_name@) ==> (r matches Err(e)
            && e.kind matches ConnectErrorKind::Other(_) && e.inner == obj),
{
    if port_number >= port_count {
        return Err(ConnectError::new(ConnectErrorKind::PortNumberOutOfRange, obj));
    }
    if !validate_port_name(port_name) {
        return Err(ConnectError::other("port_name must not contain null bytes", obj));
    }
    Ok(obj)
}

/// The pre-connect check for creating a virtual port, which involves no
/// port index: only the port name is validated.
pub fn precheck_virtual<T>(obj: T, port_name: &[u8]) -> (r: Result<T, ConnectError<T>>)
    ensures
        spec_name_ok(port_name@) ==> (r matches Ok(o) && o == obj),
        !spec_name_ok(port_name@) ==> (r matches Err(e) && e.kind matches ConnectErrorKind::Other(
            _,
        ) && e.inner == obj),
{
    if !validate_port_name(port_name) {
        return Err(ConnectError::other("port_name must not contain null bytes", obj));
    }
    Ok(obj)
}

/// Where a connection stands in its life. The stop request, the join
/// and the release of handles happen outside; this records how far the
/// teardown has come and refuses any step out of order.
#[derive(Clone, Copy, PartialEq, Eq, Structural, Debug)]
pub enum ClosePhase {
    /// The worker thread runs and owns the host handle.
    Open,
    /// The stop flag has been written once; the worker has not yet been
    /// joined.
    StopRequested,
    /// The worker thread has exited and been joined; its state is back
    /// with the closer, but the handles are still held.
    Joined,
    /// Both signal descriptors are released and the port is gone.
    Closed,
}

/// The caller-side record of an input connection: the virtual port id,
/// whether a subscription record must be torn down, and how far the
/// teardown has come. Exactly one of "worker running" and "closed"
/// holds at either end of the protocol; the phases between belong to a
/// single teardown in progress.
pub struct ConnectionHandle {
    vport: i32,
    has_subscription: bool,
    phase: ClosePhase,
}

impl ConnectionHandle {
    /// The recorded virtual port id.
    pub closed spec fn spec_vport(&self) -> i32 {
        self.vport
    }

    /// Whether a subscription record was made at connect time.
    pub closed spec fn spec_has_subscription(&self) -> bool {
        self.has_subscription
    }

    /// Where the connection stands.
    pub closed spec fn spec_phase(&self) -> ClosePhase {
        self.phase
    }

    /// A fresh record for a connection whose worker just started.
    pub fn new(vport: i32, has_subscription: bool) -> (r: ConnectionHandle)
        ensures
            r.spec_vport() == vport,
            r.spec_has_subscription() == has_subscription,
            r.spec_phase() == ClosePhase::Open,
    {
        ConnectionHandle { vport, has_subscription, phase: ClosePhase::Open }
    }

    /// The virtual port id, for tagging outgoing events and deleting
    /// the port at teardown.
    pub fn vport(&self) -> (r: i32)
        ensures
            r == self.spec_vport(),
    {
        self.vport
    }

    /// Whether a subscription must be torn down before the port is
    /// deleted.
    pub fn has_subscription(&self) -> (r: bool)
        ensures
            r == self.spec_has_subscription(),
    {
        self.has_subscription
    }

    /// Whether the worker is still running, which is what guards the
    /// close-on-drop path: a connection already being torn down is not
    /// torn down again.
    pub fn is_open(&self) -> (r: bool)
        ensures
            r == (self.spec_phase() == ClosePhase::Open),
    {
        matches!(self.phase, ClosePhase::Open)
    }

    /// Records that the stop flag has been written to the signal
    /// channel. The flag is written at most once per connection, so
    /// this step is only open to a running connection.
    pub fn note_stop_requested(&mut self)
        requires
            old(self).spec_phase() == ClosePhase::Open,
        ensures
            final(self).spec_phase() == ClosePhase::StopRequested,
            final(self).spec_vport() == old(self).spec_vport(),
            final(self).spec_has_subscription() == old(self).spec_has_subscription(),
    {
        self.phase = ClosePhase::StopRequested;
    }

    /// Records that the worker thread has been joined. Joining without
    /// having requested the stop would block forever, so this step
    /// demands the stop was requested first.
    pub fn note_joined(&mut self)
        requires
            old(self).spec_phase() == ClosePhase::StopRequested,
        ensures
            final(self).spec_phase() == ClosePhase::Joined,
            final(self).spec_vport() == old(self).spec_vport(),
            final(self).spec_has_subscription() == old(self).spec_has_subscription(),
    {
        self.phase = ClosePhase::Joined;
    }

    /// Records that the signal descriptors are closed and the port is
    /// deleted. Handles are released only after the join has returned,
    /// never while the worker might still use them.
    pub fn note_released(&mut self)
        requires
            old(self).spec_phase() == ClosePhase::Joined,
        ensures
            final(self).spec_phase() == ClosePhase::Closed,
            final(self).spec_vport() == old(self).spec_vport(),
            final(self).spec_has_subscription() == old(self).spec_has_subscription(),
    {
        self.phase = ClosePhase::Closed;
    }
}

} // verus!
