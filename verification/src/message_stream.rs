//! Many messages over one framed transport.
//!
//! A `MessageStream` keeps the three pieces of state that multiplexing
//! needs: the messages still being sent, the incoming messages that were
//! given up on, and the events not yet handed to the owner. It performs no
//! I/O. Whoever drives it asks it what to send, tells it what the transport
//! answered, shows it each frame that came in, and collects the events.

use crate::error::Error;
use crate::error::ErrorKind;
use crate::frame::Frame;
use crate::frame::HandleFrame;
use crate::message::MessageSeqNo;
use crate::message::OutgoingMessage;
use crate::readiness::Async;
use std::collections::HashSet;
use std::collections::VecDeque;
use vstd::prelude::*;

verus! {

broadcast use vstd::std_specs::hash::group_hash_axioms;

/// What became of one message, as told to the owner of the stream.
#[derive(Debug, PartialEq, Eq)]
#[allow(inconsistent_fields)]
pub enum MessageStreamEvent<T> {
    /// An outgoing message left completely, or could not be sent.
    Sent { seqno: MessageSeqNo, result: Result<(), Error> },
    /// An incoming message arrived completely, or was lost.
    Received { seqno: MessageSeqNo, result: Result<T, Error> },
}

impl<T> MessageStreamEvent<T> {
    /// Whether the event reports a success.
    pub open spec fn spec_is_ok(&self) -> bool {
        match *self {
            MessageStreamEvent::Sent { result, .. } => result is Ok,
            MessageStreamEvent::Received { result, .. } => result is Ok,
        }
    }

    /// The message that the event is about.
    pub open spec fn spec_seqno(&self) -> MessageSeqNo {
        match *self {
            MessageStreamEvent::Sent { seqno, .. } => seqno,
            MessageStreamEvent::Received { seqno, .. } => seqno,
        }
    }

    /// Whether the event reports a success.
    #[verifier::when_used_as_spec(spec_is_ok)]
    pub fn is_ok(&self) -> (b: bool)
        ensures
            b == self.spec_is_ok(),
    {
        match *self {
            MessageStreamEvent::Sent { ref result, .. } => result.is_ok(),
            MessageStreamEvent::Received { ref result, .. } => result.is_ok(),
        }
    }

    /// The message that the event is about.
    #[verifier::when_used_as_spec(spec_seqno)]
    pub fn seqno(&self) -> (seqno: MessageSeqNo)
        ensures
            seqno == self.spec_seqno(),
    {
        match *self {
            MessageStreamEvent::Sent { seqno, .. } => seqno,
            MessageStreamEvent::Received { seqno, .. } => seqno,
        }
    }
}

/// What is to be done with a frame that came in.
#[derive(Debug, Clone, Copy, PartialEq, Eq, Structural)]
pub enum FrameDisposition {
    /// The frame belongs to a message that was given up on; it is dropped.
    Dropped,
    /// The peer gave up on the message; the owner has been told by an event.
    PeerAborted,
    /// The frame is to be shown to the frame handler, and the handler's
    /// answer handed to `MessageStream::record_handled`.
    Dispatch,
}

/// A frame that came in, with what the frame handler answers when the frame
/// is shown to it. The answer plays no part when the frame is not shown.
pub struct Arrival<T> {
    pub seqno: MessageSeqNo,
    pub end_of_message: bool,
    pub error: bool,
    pub reply: Result<Option<T>, Error>,
}

impl<T> Arrival<T> {
    /// Whether this is a frame of message `seqno` after which the peer
    /// sends no more of that message: its last frame, or one by which the
    /// peer gives the message up.
    pub open spec fn closes(self, seqno: u64) -> bool {
        self.seqno@ == seqno && (self.end_of_message || self.error)
    }

    /// Whether this is the last frame of message `seqno`.
    pub open spec fn ends(self, seqno: u64) -> bool {
        self.seqno@ == seqno && self.end_of_message
    }

    /// Whether the frame handler, shown this frame, completes the message.
    pub open spec fn completes(self) -> bool {
        self.reply matches Ok(Some(_))
    }

    /// Whether this is a frame of message `seqno`, not its last, on which
    /// the frame handler gives up.
    pub open spec fn fails_midway(self, seqno: u64) -> bool {
        self.seqno@ == seqno && !self.end_of_message && !self.error && self.reply is Err
    }
}

/// The state of a message stream as contracts see it.
#[verifier::ext_equal]
pub struct StreamView<P, T> {
    /// The messages still being sent, the next one to get a turn first.
    pub outgoing: Seq<(MessageSeqNo, OutgoingMessage<P>)>,
    /// The incoming messages whose remaining frames are dropped.
    pub cancelled: Set<u64>,
    /// The events not yet collected, oldest first.
    pub events: Seq<MessageStreamEvent<T>>,
}

impl<P, T> StreamView<P, T> {
    /// A stream with nothing queued and nothing cancelled.
    pub open spec fn empty() -> Self {
        StreamView { outgoing: Seq::empty(), cancelled: Set::empty(), events: Seq::empty() }
    }

    /// The stream after a message was submitted: it goes to the back.
    pub open spec fn enqueue(self, seqno: MessageSeqNo, message: OutgoingMessage<P>) -> Self {
        StreamView { outgoing: self.outgoing.push((seqno, message)), ..self }
    }

    /// The stream after the message at the front was taken out to be sent.
    pub open spec fn after_take(self) -> Self {
        StreamView { outgoing: self.outgoing.skip(1), ..self }
    }

    /// The stream with one more event at the end of the queue.
    pub open spec fn emit(self, event: MessageStreamEvent<T>) -> Self {
        StreamView { events: self.events.push(event), ..self }
    }

    /// The stream after the transport answered a frame-level send of a
    /// message that had been taken from the front.
    ///
    /// A failure is reported and the message dropped. "No room" puts the
    /// message back where it was. Progress short of completion sends it to
    /// the back, behind every other message. Completion is reported.
    pub open spec fn after_send(
        self,
        seqno: MessageSeqNo,
        message: OutgoingMessage<P>,
        result: Result<Option<bool>, Error>,
    ) -> Self {
        match result {
            Err(e) => self.emit(MessageStreamEvent::Sent { seqno, result: Err(e) }),
            Ok(None) => StreamView { outgoing: seq![(seqno, message)] + self.outgoing, ..self },
            Ok(Some(false)) => self.enqueue(seqno, message),
            Ok(Some(true)) => self.emit(MessageStreamEvent::Sent { seqno, result: Ok(()) }),
        }
    }

    /// Whether sending goes on after the transport gave this answer: it
    /// stops for this step when the transport has no room.
    pub open spec fn send_goes_on(result: Result<Option<bool>, Error>) -> bool {
        !(result == Ok::<Option<bool>, Error>(None))
    }

    /// What is to be done with a frame of message `seqno`.
    pub open spec fn disposition(self, seqno: MessageSeqNo, error: bool) -> FrameDisposition {
        if self.cancelled.contains(seqno@) {
            FrameDisposition::Dropped
        } else if error {
            FrameDisposition::PeerAborted
        } else {
            FrameDisposition::Dispatch
        }
    }

    /// The event that reports that the peer gave up on message `seqno`.
    pub open spec fn peer_aborted(seqno: MessageSeqNo) -> MessageStreamEvent<T> {
        MessageStreamEvent::Received {
            seqno,
            result: Err(Error { kind: ErrorKind::InvalidInput, cause: None }),
        }
    }

    /// The stream after a frame came in, before any handler saw it.
    ///
    /// A frame of a cancelled message leaves no trace, except that the last
    /// frame of the message ends the cancellation. An error flag is reported.
    /// A frame that goes to the handler changes nothing yet.
    pub open spec fn after_frame(self, seqno: MessageSeqNo, end_of_message: bool, error: bool)
        -> Self {
        match self.disposition(seqno, error) {
            FrameDisposition::Dropped => if end_of_message {
                StreamView { cancelled: self.cancelled.remove(seqno@), ..self }
            } else {
                self
            },
            FrameDisposition::PeerAborted => self.emit(Self::peer_aborted(seqno)),
            FrameDisposition::Dispatch => self,
        }
    }

    /// The stream after the frame handler answered for a frame of message
    /// `seqno`.
    ///
    /// A completed message and a failure are reported; an unfinished message
    /// is not. After a failure the rest of the message is cancelled, unless
    /// the frame was its last.
    pub open spec fn after_handled(
        self,
        seqno: MessageSeqNo,
        end_of_message: bool,
        result: Result<Option<T>, Error>,
    ) -> Self {
        match result {
            Err(e) => StreamView {
                cancelled: if end_of_message {
                    self.cancelled
                } else {
                    self.cancelled.insert(seqno@)
                },
                ..self.emit(MessageStreamEvent::Received { seqno, result: Err(e) })
            },
            Ok(None) => self,
            Ok(Some(message)) => self.emit(
                MessageStreamEvent::Received { seqno, result: Ok(message) },
            ),
        }
    }

    /// The stream after a frame came in and, if it was shown to the frame
    /// handler, the handler answered.
    pub open spec fn after_arrival(self, arrival: Arrival<T>) -> Self {
        let noted = self.after_frame(arrival.seqno, arrival.end_of_message, arrival.error);
        if self.disposition(arrival.seqno, arrival.error) == FrameDisposition::Dispatch {
            noted.after_handled(arrival.seqno, arrival.end_of_message, arrival.reply)
        } else {
            noted
        }
    }

    /// The event that the arrival of a frame adds to the queue, if any.
    pub open spec fn emission(self, arrival: Arrival<T>) -> Option<MessageStreamEvent<T>> {
        match self.disposition(arrival.seqno, arrival.error) {
            FrameDisposition::Dropped => None,
            FrameDisposition::PeerAborted => Some(Self::peer_aborted(arrival.seqno)),
            FrameDisposition::Dispatch => match arrival.reply {
                Err(e) => Some(MessageStreamEvent::Received { seqno: arrival.seqno, result: Err(e) }),
                Ok(None) => None,
                Ok(Some(message)) => Some(
                    MessageStreamEvent::Received { seqno: arrival.seqno, result: Ok(message) },
                ),
            },
        }
    }

    /// The stream after one poll, given what polling the transport gave,
    /// together with what that poll yields.
    ///
    /// An error of the transport is passed on unchanged, and the end of the
    /// transport's stream ends this stream. Otherwise the oldest event is
    /// handed out, if there is one; the others stay queued.
    pub open spec fn after_poll(self, transport: Result<Async<()>, Error>) -> (
        Self,
        Result<Async<Option<MessageStreamEvent<T>>>, Error>,
    ) {
        match transport {
            Err(e) => (self, Err(e)),
            Ok(Async::Ready(())) => (self, Ok(Async::Ready(None))),
            Ok(Async::NotReady) => if self.events.len() > 0 {
                (
                    StreamView { events: self.events.skip(1), ..self },
                    Ok(Async::Ready(Some(self.events[0]))),
                )
            } else {
                (self, Ok(Async::NotReady))
            },
        }
    }
}

/// The multiplexing state of one connection.
#[derive(Debug)]
pub struct MessageStream<P, T> {
    outgoing_messages: VecDeque<(MessageSeqNo, OutgoingMessage<P>)>,
    cancelled_incoming_messages: HashSet<u64>,
    event_queue: VecDeque<MessageStreamEvent<T>>,
}

impl<P, T> View for MessageStream<P, T> {
    type V = StreamView<P, T>;

    closed spec fn view(&self) -> StreamView<P, T> {
        StreamView {
            outgoing: self.outgoing_messages@,
            cancelled: self.cancelled_incoming_messages@,
            events: self.event_queue@,
        }
    }
}

impl<P, T> MessageStream<P, T> {
    /// A stream over a fresh connection.
    pub fn new() -> (stream: Self)
        ensures
            stream@ == StreamView::<P, T>::empty(),
    {
        MessageStream {
            outgoing_messages: VecDeque::new(),
            cancelled_incoming_messages: HashSet::new(),
            event_queue: VecDeque::new(),
        }
    }

    /// The number of messages still being sent.
    pub fn outgoing_len(&self) -> (n: usize)
        ensures
            n == self@.outgoing.len(),
    {
        self.outgoing_messages.len()
    }

    /// Whether the remaining frames of incoming message `seqno` are being
    /// dropped.
    pub fn is_cancelled(&self, seqno: MessageSeqNo) -> (cancelled: bool)
        ensures
            cancelled == self@.cancelled.contains(seqno@),
    {
        let key = seqno.as_u64();
        self.cancelled_incoming_messages.contains(&key)
    }

    /// The number of events not yet collected.
    pub fn event_count(&self) -> (n: usize)
        ensures
            n == self@.events.len(),
    {
        self.event_queue.len()
    }

    /// Queues a message for sending, behind those already queued.
    pub fn send_message(&mut self, seqno: MessageSeqNo, message: OutgoingMessage<P>)
        ensures
            final(self)@ == old(self)@.enqueue(seqno, message),
    {
        self.outgoing_messages.push_back((seqno, message));
    }

    /// Takes the message whose turn it is to be sent, if any is queued.
    ///
    /// The caller performs one frame-level send of it and reports the
    /// transport's answer to `finish_send`.
    pub fn next_outgoing(&mut self) -> (next: Option<(MessageSeqNo, OutgoingMessage<P>)>)
        ensures
            old(self)@.outgoing.len() == 0 ==> next is None && final(self)@ == old(self)@,
            old(self)@.outgoing.len() > 0 ==> next == Some(old(self)@.outgoing[0]) && final(self)@
                == old(self)@.after_take(),
    {
        self.outgoing_messages.pop_front()
    }

    /// Takes back a message after one frame-level send of it, with the
    /// transport's answer: `Err` for a failed send, `Ok(None)` for "no room
    /// right now", `Ok(Some(false))` for progress with more to send and
    /// `Ok(Some(true))` for completion.
    ///
    /// Returns whether the caller should go on sending in this step.
    pub fn finish_send(
        &mut self,
        seqno: MessageSeqNo,
        message: OutgoingMessage<P>,
        result: Result<Option<bool>, Error>,
    ) -> (goes_on: bool)
        ensures
            final(self)@ == old(self)@.after_send(seqno, message, result),
            goes_on == StreamView::<P, T>::send_goes_on(result),
    {
        match result {
            Err(e) => {
                let event = MessageStreamEvent::Sent { seqno, result: Err(e) };
                self.event_queue.push_back(event);
                true
            },
            Ok(None) => {
                self.outgoing_messages.push_front((seqno, message));
                false
            },
            Ok(Some(false)) => {
                self.outgoing_messages.push_back((seqno, message));
                true
            },
            Ok(Some(true)) => {
                let event = MessageStreamEvent::Sent { seqno, result: Ok(()) };
                self.event_queue.push_back(event);
                true
            },
        }
    }

    /// Takes up a frame that came in: the frame is shown to `handler`,
    /// unless it is dropped or bears the peer's error flag, and note is
    /// taken of what the handler answers.
    ///
    /// The stream is left as `after_arrival` says for the answer of the
    /// handler, whatever that answer is.
    pub fn handle_frame<H>(&mut self, frame: &Frame, handler: &mut H) -> (disposition:
        FrameDisposition) where H: HandleFrame<Item = T>
        ensures
            disposition == old(self)@.disposition(frame.seqno, frame.error),
            disposition != FrameDisposition::Dispatch ==> *final(handler) == *old(handler)
                && final(self)@ == old(self)@.after_frame(
                frame.seqno,
                frame.end_of_message,
                frame.error,
            ),
            exists|reply: Result<Option<T>, Error>|
                final(self)@ == #[trigger] old(self)@.after_arrival(
                    Arrival {
                        seqno: frame.seqno,
                        end_of_message: frame.end_of_message,
                        error: frame.error,
                        reply,
                    },
                ),
    {
        let disposition = self.receive_frame(frame);
        if disposition == FrameDisposition::Dispatch {
            let reply = handler.handle_frame(frame);
            let ghost arrival = Arrival {
                seqno: frame.seqno,
                end_of_message: frame.end_of_message,
                error: frame.error,
                reply,
            };
            self.record_handled(frame.seqno, frame.end_of_message, reply);
            assert(self@ == old(self)@.after_arrival(arrival));
        } else {
            let ghost arrival = Arrival {
                seqno: frame.seqno,
                end_of_message: frame.end_of_message,
                error: frame.error,
                reply: Ok::<Option<T>, Error>(None),
            };
            assert(self@ == old(self)@.after_arrival(arrival));
        }
        disposition
    }

    /// Takes note of a frame that came in and says what is to be done with
    /// it. This is the first half of `handle_frame`, for a caller that
    /// shows the frame to the frame handler itself.
    pub fn receive_frame(&mut self, frame: &Frame) -> (disposition: FrameDisposition)
        ensures
            disposition == old(self)@.disposition(frame.seqno, frame.error),
            final(self)@ == old(self)@.after_frame(frame.seqno, frame.end_of_message, frame.error),
    {
        let seqno = frame.seqno;
        let key = seqno.as_u64();
        if self.cancelled_incoming_messages.contains(&key) {
            if frame.is_end_of_message() {
                self.cancelled_incoming_messages.remove(&key);
            }
            return FrameDisposition::Dropped;
        }
        if frame.is_error() {
            let event = MessageStreamEvent::Received {
                seqno,
                result: Err(Error::new(ErrorKind::InvalidInput)),
            };
            self.event_queue.push_back(event);
            FrameDisposition::PeerAborted
        } else {
            FrameDisposition::Dispatch
        }
    }

    /// Takes note of what the frame handler answered for a dispatched frame
    /// of message `seqno`: `Ok(None)` while the message is unfinished,
    /// `Ok(Some(_))` with the completed message, `Err` when it gave up.
    /// This is the second half of `handle_frame`.
    pub fn record_handled(
        &mut self,
        seqno: MessageSeqNo,
        end_of_message: bool,
        result: Result<Option<T>, Error>,
    )
        ensures
            final(self)@ == old(self)@.after_handled(seqno, end_of_message, result),
    {
        match result {
            Err(e) => {
                if !end_of_message {
                    self.cancelled_incoming_messages.insert(seqno.as_u64());
                }
                let event = MessageStreamEvent::Received { seqno, result: Err(e) };
                self.event_queue.push_back(event);
            },
            Ok(None) => {},
            Ok(Some(message)) => {
                let event = MessageStreamEvent::Received { seqno, result: Ok(message) };
                self.event_queue.push_back(event);
            },
        }
    }

    /// Ends one drive step: `transport` is what polling the transport gave
    /// at the start of the step, before any frame was sent or received.
    ///
    /// At most one event is handed out per step.
    pub fn poll(&mut self, transport: Result<Async<()>, Error>) -> (polled: Result<
        Async<Option<MessageStreamEvent<T>>>,
        Error,
    >)
        ensures
            (final(self)@, polled) == old(self)@.after_poll(transport),
    {
        match transport {
            Err(e) => Err(e),
            Ok(Async::Ready(())) => Ok(Async::Ready(None)),
            Ok(Async::NotReady) => match self.event_queue.pop_front() {
                Some(event) => Ok(Async::Ready(Some(event))),
                None => Ok(Async::NotReady),
            },
        }
    }
}

} // verus!
