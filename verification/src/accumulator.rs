//! Fixed-capacity byte buffer that reassembles the incoming stream into
//! discrete message windows.
//!
//! Framing is purely length-based: a message is complete exactly when the
//! buffer holds [`MESSAGE_LEN`] bytes, and the buffer is cleared after every
//! decode attempt so that accumulation restarts on the next message boundary.

use vstd::prelude::*;

verus! {

/// Length in bytes of one complete surveillance message on the wire.
///
/// This is a domain constant of the message format, not a tunable.
pub const MESSAGE_LEN: usize = 14;

/// A byte arrived while the buffer already held a complete message; the byte
/// is dropped and the buffer is left as it was.
#[derive(Debug, Clone, Copy, PartialEq, Eq, Structural)]
pub struct BufferFullError;

/// Collects incoming bytes, one at a time, into a buffer of capacity
/// [`MESSAGE_LEN`].
pub struct Accumulator {
    bytes: Vec<u8>,
}

impl View for Accumulator {
    type V = Seq<u8>;

    /// The bytes accumulated so far, oldest first.
    closed spec fn view(&self) -> Seq<u8> {
        self.bytes@
    }
}

/// A buffer is complete exactly when it holds one full message window.
pub open spec fn complete_spec(bytes: Seq<u8>) -> bool {
    bytes.len() == MESSAGE_LEN
}

impl Accumulator {
    /// The buffer never holds more than one message window.
    pub closed spec fn wf(&self) -> bool {
        self.bytes@.len() <= MESSAGE_LEN
    }

    /// A fresh, empty accumulator.
    pub fn new() -> (r: Accumulator)
        ensures
            r.wf(),
            r@ == Seq::<u8>::empty(),
    {
        Accumulator { bytes: Vec::new() }
    }

    /// Number of bytes accumulated so far.
    pub fn len(&self) -> (r: usize)
        ensures
            r == self@.len(),
    {
        self.bytes.len()
    }

    /// Appends one byte, unless the buffer already holds a complete message;
    /// in that case the byte is dropped, the buffer is unchanged, and the
    /// caller is told so.
    pub fn push(&mut self, byte: u8) -> (r: Result<(), BufferFullError>)
        requires
            old(self).wf(),
        ensures
            final(self).wf(),
            r is Ok <==> old(self)@.len() < MESSAGE_LEN,
            old(self)@.len() < MESSAGE_LEN ==> final(self)@ == old(self)@.push(byte),
            old(self)@.len() >= MESSAGE_LEN ==> final(self)@ == old(self)@,
    {
        if self.bytes.len() < MESSAGE_LEN {
            self.bytes.push(byte);
            Ok(())
        } else {
            Err(BufferFullError)
        }
    }

    /// True exactly when the buffer holds one full message window.
    pub fn is_complete(&self) -> (r: bool)
        ensures
            r == complete_spec(self@),
    {
        self.bytes.len() == MESSAGE_LEN
    }

    /// Resets the buffer to empty, whatever it held; this implements frame
    /// resynchronization after a decode attempt.
    pub fn clear(&mut self)
        ensures
            final(self).wf(),
            final(self)@ == Seq::<u8>::empty(),
    {
        self.bytes.clear();
    }

    /// Read-only access to the accumulated bytes, for handing a complete
    /// window to the decoder.
    pub fn bytes(&self) -> (r: &Vec<u8>)
        ensures
            r@ == self@,
    {
        &self.bytes
    }
}

/// Law: a buffer holding fewer bytes than one message window is never
/// complete; in particular a fresh accumulator fed fewer than [`MESSAGE_LEN`]
/// bytes reports incomplete.
pub proof fn lemma_short_buffer_incomplete(bytes: Seq<u8>)
    requires
        bytes.len() < MESSAGE_LEN,
    ensures
        !complete_spec(bytes),
{
}

} // verus!
