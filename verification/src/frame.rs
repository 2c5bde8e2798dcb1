//! The unit in which the transport carries messages.

use crate::error::Error;
use crate::message::MessageSeqNo;
use vstd::prelude::*;

verus! {

/// One frame as the transport delivers it: a slice of the bytes of one
/// message, tagged with the sequence number of that message and two flags.
#[derive(Debug, Clone, Copy)]
pub struct Frame<'a> {
    /// The message this frame belongs to.
    pub seqno: MessageSeqNo,
    /// The bytes of the message that this frame carries.
    pub data: &'a [u8],
    /// Set on the last frame of a message.
    pub end_of_message: bool,
    /// Set by the peer when it gave up on the message.
    pub error: bool,
}

impl<'a> Frame<'a> {
    /// The bytes of the message that this frame carries.
    pub fn data(&self) -> (data: &'a [u8])
        ensures
            data@ == self.data@,
    {
        self.data
    }

    /// Whether this is the last frame of its message.
    pub fn is_end_of_message(&self) -> (b: bool)
        ensures
            b == self.end_of_message,
    {
        self.end_of_message
    }

    /// Whether the peer gave up on the message.
    pub fn is_error(&self) -> (b: bool)
        ensures
            b == self.error,
    {
        self.error
    }
}

/// The handler of the frames that come in over one connection: it puts the
/// frames of each message together and decodes the message.
pub trait HandleFrame {
    /// What a completed incoming message comes to.
    type Item;

    /// Takes up one frame: `Ok(None)` while the message of the frame is
    /// unfinished, `Ok(Some(_))` with what the message comes to once it is
    /// complete, `Err` when the message cannot be decoded.
    fn handle_frame(&mut self, frame: &Frame) -> Result<Option<Self::Item>, Error>;

    /// Takes note that message `seqno` was lost.
    fn handle_error(&mut self, seqno: MessageSeqNo, error: Error);
}

} // verus!
