//! The synchronous output path: encode-buffer bookkeeping and the
//! decisions `send` makes around the host encoder.
//!
//! The host encoder works out of a fixed-capacity buffer. A message
//! longer than the buffer forces a resize before encoding; a failed
//! resize and a rejected encode are distinct, recoverable errors. The
//! encode, tag and transmit calls themselves happen outside; this module
//! owns the capacity state and maps each outcome to the caller-visible
//! result.

use vstd::prelude::*;

use crate::errors::SendError;

verus! {

/// The encode buffer capacity a fresh output connection starts with.
pub const INITIAL_CODER_BUFFER_SIZE: u32 = 32;

/// Capacity bookkeeping for the host event encoder's working buffer.
///
/// The host object that actually owns the bytes lives outside; this
/// state records the capacity it was last known to have, which is what
/// the resize decision is made from.
pub struct EventEncoder {
    buffer_size: u32,
}

impl EventEncoder {
    /// A new encoder whose working buffer holds `buffer_size` bytes.
    pub fn new(buffer_size: u32) -> (r: EventEncoder)
        ensures
            r.size() == buffer_size,
    {
        EventEncoder { buffer_size }
    }

    /// The capacity of the working buffer, as an abstract value.
    pub closed spec fn size(&self) -> u32 {
        self.buffer_size
    }

    /// The capacity of the working buffer.
    pub fn get_buffer_size(&self) -> (r: u32)
        ensures
            r == self.size(),
    {
        self.buffer_size
    }

    /// The capacity the buffer must grow to before a message of
    /// `nbytes` bytes can be encoded, if it must grow at all.
    pub fn required_resize(&self, nbytes: usize) -> (r: Option<u32>)
        requires
            nbytes <= u32::MAX,
        ensures
            r == spec_required_resize(self.size(), nbytes as int),
    {
        if nbytes > self.buffer_size as usize {
            Some(nbytes as u32)
        } else {
            None
        }
    }

    /// Folds the outcome of the host's resize call into the bookkeeping:
    /// a successful resize is recorded, a failed one leaves the capacity
    /// as it was and surfaces as the recoverable `Other` error, never as
    /// `InvalidData`.
    pub fn resize_buffer(&mut self, bufsize: u32, resized: bool) -> (r: Result<(), SendError>)
        ensures
            resized ==> final(self).size() == bufsize && r is Ok,
            !resized ==> final(self).size() == old(self).size() && (r matches Err(e)
                && e is Other),
    {
        if resized {
            self.buffer_size = bufsize;
            Ok(())
        } else {
            Err(SendError::Other("could not resize encoding buffer"))
        }
    }

    /// Maps the host encoder's verdict on the message bytes: a rejected
    /// encode is the recoverable `InvalidData` error, and nothing else
    /// is.
    pub fn encode_outcome(&self, encoded: bool) -> (r: Result<(), SendError>)
        ensures
            encoded <==> r is Ok,
            !encoded ==> (r matches Err(e) && e is InvalidData),
    {
        if encoded {
            Ok(())
        } else {
            Err(SendError::InvalidData("encoder reported invalid data"))
        }
    }

    /// Maps the outcome of handing the encoded event to the host's
    /// output path: a refused transmit is the recoverable `Other` error.
    pub fn transmit_outcome(&self, sent: bool) -> (r: Result<(), SendError>)
        ensures
            sent <==> r is Ok,
            !sent ==> (r matches Err(e) && e is Other),
    {
        if sent {
            Ok(())
        } else {
            Err(SendError::Other("could not send encoded message"))
        }
    }
}

/// The resize decision of the send path: grow to exactly the message
/// length when the message outgrows the buffer, and otherwise leave the
/// buffer alone.
pub open spec fn spec_required_resize(buffer_size: u32, nbytes: int) -> Option<u32> {
    if nbytes > buffer_size {
        Option::Some(nbytes as u32)
    } else {
        Option::None
    }
}

/// A message longer than the buffer always forces a resize, and the
/// capacity the send path asks for is always enough to hold the
/// message; after that resize succeeds the buffer no longer needs to
/// grow for the same message.
pub proof fn lemma_send_implicit_resize(buffer_size: u32, nbytes: int)
    requires
        0 <= nbytes <= u32::MAX,
        nbytes > buffer_size,
    ensures
        spec_required_resize(buffer_size, nbytes) matches Some(grown) && grown >= nbytes
            && spec_required_resize(grown, nbytes) is None,
{
}

} // verus!
