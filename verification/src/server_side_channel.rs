//! The server's end of a channel: one accepted connection, whose incoming
//! requests are handed upward as actions.
//!
//! Like the client's end it performs no I/O. The driver sends and receives
//! frames through the message stream and asks the channel, step by step,
//! what the stream's events come to.

use crate::error::Error;
use crate::message::MessageSeqNo;
use crate::message::OutgoingMessage;
use crate::message_stream::MessageStream;
use crate::message_stream::MessageStreamEvent;
use crate::message_stream::StreamView;
use crate::readiness::Async;
use vstd::prelude::*;

verus! {

/// What one event of the message stream comes to at the server.
#[derive(Debug, PartialEq, Eq)]
pub enum Served<A> {
    /// A request arrived completely: `action` is to be handed upward.
    Action(A),
    /// The stream ended, and so does the channel.
    Finished,
    /// A response left completely or could not be sent. Nothing is to be
    /// done but, perhaps, to log it; the driver polls again.
    Sent { seqno: MessageSeqNo, result: Result<(), Error> },
    /// An incoming request was lost: the frame handler's `handle_error` is
    /// to be called with `seqno` and `error`; the driver polls again.
    Failed { seqno: MessageSeqNo, error: Error },
}

/// What an event of the message stream comes to at the server.
pub open spec fn served<A>(event: MessageStreamEvent<A>) -> Served<A> {
    match event {
        MessageStreamEvent::Sent { seqno, result } => Served::Sent { seqno, result },
        MessageStreamEvent::Received { seqno, result: Err(error) } => Served::Failed {
            seqno,
            error,
        },
        MessageStreamEvent::Received { seqno, result: Ok(action) } => Served::Action(action),
    }
}

/// What a poll of the message stream comes to at the server: errors of the
/// transport and "not ready" are passed on, the end of the stream ends the
/// channel, and an event comes to what `served` says.
pub open spec fn served_poll<A>(polled: Result<Async<Option<MessageStreamEvent<A>>>, Error>)
    -> Result<Async<Served<A>>, Error> {
    match polled {
        Err(e) => Err(e),
        Ok(Async::NotReady) => Ok(Async::NotReady),
        Ok(Async::Ready(None)) => Ok(Async::Ready(Served::Finished)),
        Ok(Async::Ready(Some(event))) => Ok(Async::Ready(served(event))),
    }
}

/// The server's end of a channel.
#[derive(Debug)]
pub struct ServerSideChannel<P, A> {
    message_stream: MessageStream<P, A>,
}

impl<P, A> View for ServerSideChannel<P, A> {
    type V = StreamView<P, A>;

    /// A server-side channel has no state but that of its message stream.
    closed spec fn view(&self) -> StreamView<P, A> {
        self.message_stream@
    }
}

impl<P, A> ServerSideChannel<P, A> {
    /// A channel over a connection that was just accepted.
    pub fn new() -> (channel: Self)
        ensures
            channel@ == StreamView::<P, A>::empty(),
    {
        ServerSideChannel { message_stream: MessageStream::new() }
    }

    /// Queues a response for sending, behind those already queued.
    pub fn reply(&mut self, seqno: MessageSeqNo, message: OutgoingMessage<P>)
        ensures
            final(self)@ == old(self)@.enqueue(seqno, message),
    {
        self.message_stream.send_message(seqno, message);
    }

    /// The message stream of the connection: the driver sends and receives
    /// frames through it.
    pub fn message_stream_mut(&mut self) -> (stream: &mut MessageStream<P, A>)
        ensures
            stream@ == old(self)@,
            final(self)@ == final(stream)@,
    {
        &mut self.message_stream
    }

    /// Ends one drive step, or one round of it: `transport` is what polling
    /// the transport gave before any frame was sent or received.
    ///
    /// The driver hands an action upward, ends with the stream, or stops on
    /// "not ready"; after `Sent` and `Failed` it polls again.
    pub fn poll(&mut self, transport: Result<Async<()>, Error>) -> (step: Result<
        Async<Served<A>>,
        Error,
    >)
        ensures
            final(self)@ == old(self)@.after_poll(transport).0,
            step == served_poll(old(self)@.after_poll(transport).1),
    {
        match self.message_stream.poll(transport) {
            Err(e) => Err(e),
            Ok(Async::NotReady) => Ok(Async::NotReady),
            Ok(Async::Ready(None)) => Ok(Async::Ready(Served::Finished)),
            Ok(Async::Ready(Some(event))) => match event {
                MessageStreamEvent::Sent { seqno, result } => Ok(
                    Async::Ready(Served::Sent { seqno, result }),
                ),
                MessageStreamEvent::Received { seqno, result } => match result {
                    Err(error) => Ok(Async::Ready(Served::Failed { seqno, error })),
                    Ok(action) => Ok(Async::Ready(Served::Action(action))),
                },
            },
        }
    }
}

} // verus!
