//! Error taxonomy of the connection layer.
//!
//! Connect failures hand the not-yet-consumed object back to the caller, so
//! that a failed connect never costs the caller its client handle.

use vstd::prelude::*;

verus! {

/// Client registration with the host service failed. Fatal to
/// construction; carries no further detail.
#[derive(Clone, Copy, PartialEq, Eq, Structural, Debug)]
pub struct InitError;

/// Why a connect attempt failed.
#[derive(Clone, Copy, PartialEq, Eq, Debug)]
pub enum ConnectErrorKind {
    /// The requested port index does not name an existing port.
    PortNumberOutOfRange,
    /// Any other failure, with a short description.
    Other(&'static str),
}

impl ConnectErrorKind {
    /// True exactly on the out-of-range variant.
    pub fn is_port_number_out_of_range(&self) -> (r: bool)
        ensures
            r == (*self is PortNumberOutOfRange),
    {
        match self {
            ConnectErrorKind::PortNumberOutOfRange => true,
            ConnectErrorKind::Other(_) => false,
        }
    }
}

/// A failed connect: the reason, together with the original unconnected
/// object, returned to the caller untouched.
#[derive(Debug)]
pub struct ConnectError<T> {
    pub kind: ConnectErrorKind,
    pub inner: T,
}

impl<T> ConnectError<T> {
    /// Packs a reason with the object the caller handed in.
    pub fn new(kind: ConnectErrorKind, inner: T) -> (r: ConnectError<T>)
        ensures
            r.kind == kind,
            r.inner == inner,
    {
        ConnectError { kind, inner }
    }

    /// Shorthand for a failure that is not an out-of-range port index.
    pub fn other(msg: &'static str, inner: T) -> (r: ConnectError<T>)
        ensures
            r.kind == ConnectErrorKind::Other(msg),
            r.inner == inner,
    {
        ConnectError { kind: ConnectErrorKind::Other(msg), inner }
    }

    /// The reason for the failure.
    pub fn kind(&self) -> (r: ConnectErrorKind)
        ensures
            r == self.kind,
    {
        self.kind
    }

    /// Recovers the original object, consuming the error.
    pub fn into_inner(self) -> (r: T)
        ensures
            r == self.inner,
    {
        self.inner
    }
}

/// Why a single send call failed. The connection stays usable after
/// either variant.
#[derive(Clone, Copy, PartialEq, Eq, Debug)]
pub enum SendError {
    /// The encoder rejected the bytes as not forming a MIDI message.
    InvalidData(&'static str),
    /// Any other failure, such as the encode buffer refusing to grow.
    Other(&'static str),
}

/// Why a port query failed. Queries mutate no state.
#[derive(Clone, Copy, PartialEq, Eq, Structural, Debug)]
pub enum PortInfoError {
    /// The requested port index does not name an existing port.
    PortNumberOutOfRange,
    /// The port exists but the host service would not give its name.
    CannotRetrievePortName,
}

} // verus!
