//! The client's end of a channel: one connection to the server, made anew
//! whenever it is lost.
//!
//! The channel is connecting, connected, or waiting before it connects
//! again. It performs no I/O: whoever drives it polls the hold-off timer,
//! the connection attempt or the transport, whichever the channel awaits,
//! and tells the channel what the poll gave. The channel answers with its
//! next state and with what the driver is to do.

use crate::error::Error;
use crate::error::ErrorKind;
use crate::message::MessageSeqNo;
use crate::message::OutgoingMessage;
use crate::message_stream::MessageStream;
use crate::message_stream::MessageStreamEvent;
use crate::message_stream::StreamView;
use crate::readiness::Async;
use std::sync::mpsc::RecvError;
use vstd::arithmetic::power2::pow2;
use vstd::bits::lemma_u64_pow2_no_overflow;
use vstd::bits::lemma_u64_shl_is_mul;
use vstd::prelude::*;

verus! {

/// `std::sync::mpsc::RecvError`, the error that a timer gives when it is
/// polled after its clock went away. Nothing is claimed of it: it carries
/// no information.
#[verifier::external_type_specification]
#[verifier::external_body]
pub struct ExRecvError(RecvError);

/// Whether `result` is the failure that stands for a broken timer.
pub open spec fn is_broken_timer<V>(result: Result<V, Error>) -> bool {
    result matches Err(e) && e.is_caused_by(ErrorKind::Other, "Broken timer"@)
}

/// The error that stands for a broken timer.
pub fn from_timeout_error(_error: RecvError) -> (e: Error)
    ensures
        e.is_caused_by(ErrorKind::Other, "Broken timer"@),
{
    Error::with_cause(ErrorKind::Other, "Broken timer")
}

/// The seconds to wait before connecting again once `retried_count`
/// attempts have been made after the first: nothing while none was made,
/// then one second, and twice as long after each further attempt.
pub open spec fn backoff_timeout(retried_count: nat) -> Option<u64> {
    if retried_count == 0 {
        None
    } else {
        Some(pow2((retried_count - 1) as nat) as u64)
    }
}

/// Counts the connection attempts since the channel last worked and tells
/// how long to wait before the next.
#[derive(Debug)]
pub struct ExponentialBackoff {
    retried_count: usize,
}

impl View for ExponentialBackoff {
    type V = nat;

    /// The number of attempts made since the channel last worked, the
    /// first not counted.
    closed spec fn view(&self) -> nat {
        self.retried_count as nat
    }
}

impl ExponentialBackoff {
    /// The largest count for which the wait still fits in 64 bits of
    /// seconds.
    pub const MAX_RETRIED_COUNT: usize = 64;

    /// A backoff with no attempt made.
    pub fn new() -> (backoff: Self)
        ensures
            backoff@ == 0,
    {
        ExponentialBackoff { retried_count: 0 }
    }

    /// The number of attempts made since the channel last worked, the
    /// first not counted.
    pub fn retried_count(&self) -> (n: usize)
        ensures
            n == self@,
    {
        self.retried_count
    }

    /// Counts one more attempt.
    pub fn next(&mut self)
        requires
            old(self)@ < usize::MAX,
        ensures
            final(self)@ == old(self)@ + 1,
    {
        self.retried_count += 1;
    }

    /// The seconds to wait before the next attempt, or `None` when the
    /// next attempt is due at once.
    pub fn timeout(&self) -> (timeout: Option<u64>)
        requires
            self@ <= Self::MAX_RETRIED_COUNT,
        ensures
            timeout == backoff_timeout(self@),
    {
        if self.retried_count == 0 {
            None
        } else {
            let doublings: u64 = (self.retried_count - 1) as u64;
            proof {
                lemma_u64_pow2_no_overflow(doublings as nat);
                lemma_u64_shl_is_mul(1, doublings);
            }
            Some(1u64 << doublings)
        }
    }

    /// Forgets the attempts made: the channel works.
    pub fn reset(&mut self)
        ensures
            final(self)@ == 0,
    {
        self.retried_count = 0;
    }
}

/// What a poll of the keep-alive watchdog comes to.
#[derive(Debug, Clone, Copy, PartialEq, Eq, Structural)]
pub enum KeepAliveStep {
    /// The period has not run out.
    NotReady,
    /// The period ran out but the channel was active during it: a timer of
    /// `timeout` seconds is to be started and polled in turn.
    Restart { timeout: u64 },
    /// A whole period passed without activity: the channel is to close.
    Expired,
}

/// The watchdog that closes an idle channel.
///
/// Activity does not restart the timer; it only marks the running period as
/// one to be followed by another. An idle channel is therefore closed after
/// at least one period and at most two.
#[derive(Debug, Clone, Copy, PartialEq, Eq, Structural)]
pub struct KeepAlive {
    /// The length of a period, in seconds.
    pub timeout: u64,
    /// Whether the running period is to be followed by another.
    pub extend_period: bool,
}

impl KeepAlive {
    /// The watchdog and the answer after a poll, given whether the timer
    /// fired: when it fires the channel is closed, unless the period was
    /// marked, in which case another period begins without a mark.
    pub open spec fn step(self, fired: bool) -> (KeepAlive, KeepAliveStep) {
        if !fired {
            (self, KeepAliveStep::NotReady)
        } else if self.extend_period {
            (
                KeepAlive { extend_period: false, ..self },
                KeepAliveStep::Restart { timeout: self.timeout },
            )
        } else {
            (self, KeepAliveStep::Expired)
        }
    }

    /// A watchdog with periods of `timeout` seconds, in its first period.
    pub fn new(timeout: u64) -> (keep_alive: Self)
        ensures
            keep_alive == (KeepAlive { timeout, extend_period: false }),
    {
        KeepAlive { timeout, extend_period: false }
    }

    /// Marks the running period as one to be followed by another.
    pub fn extend_period(&mut self)
        ensures
            *final(self) == (KeepAlive { extend_period: true, ..*old(self) }),
    {
        self.extend_period = true;
    }

    /// Whether the timer fired, given what polling it gave.
    pub fn poll_timeout(&self, timer: Result<Async<()>, RecvError>) -> (fired: Result<bool, Error>)
        ensures
            match timer {
                Ok(readiness) => fired == Ok::<bool, Error>(readiness is Ready),
                Err(_) => is_broken_timer(fired),
            },
    {
        match timer {
            Ok(readiness) => Ok(readiness.is_ready()),
            Err(e) => Err(from_timeout_error(e)),
        }
    }

    /// Takes note of what polling the timer gave.
    pub fn poll(&mut self, timer: Result<Async<()>, RecvError>) -> (step: Result<
        KeepAliveStep,
        Error,
    >)
        ensures
            match timer {
                Ok(readiness) => (*final(self), step) == (
                    old(self).step(readiness is Ready).0,
                    Ok::<KeepAliveStep, Error>(old(self).step(readiness is Ready).1),
                ),
                Err(_) => *final(self) == *old(self) && is_broken_timer(step),
            },
    {
        if self.poll_timeout(timer)? {
            if self.extend_period {
                self.extend_period = false;
                Ok(KeepAliveStep::Restart { timeout: self.timeout })
            } else {
                Ok(KeepAliveStep::Expired)
            }
        } else {
            Ok(KeepAliveStep::NotReady)
        }
    }
}

/// A message submitted while the channel was connecting, kept until the
/// connection stands.
#[derive(Debug, PartialEq, Eq)]
pub struct BufferedMessage<P, R> {
    pub seqno: MessageSeqNo,
    pub message: OutgoingMessage<P>,
    /// Who is to be told of the response, if anybody.
    pub handler: Option<R>,
}

/// What became of a message at the moment it was submitted.
#[derive(Debug, PartialEq, Eq)]
pub enum Submission<R> {
    /// The channel is connected, and the message is queued for sending.
    /// The handler, if there is one, is to be registered for `seqno` with
    /// the frame handler of the connection.
    Dispatched { seqno: MessageSeqNo, handler: Option<R> },
    /// The channel is connecting, and the message is kept, with its
    /// handler, until the connection stands.
    Buffered { seqno: MessageSeqNo },
    /// The channel is waiting before it connects again, and the message is
    /// discarded. The handler, if there is one, is to be told `error` for
    /// `seqno`.
    Rejected { seqno: MessageSeqNo, handler: Option<R>, error: Error },
}

/// What the channel awaits: what the driver is to poll next.
#[derive(Debug, Clone, Copy, PartialEq, Eq, Structural)]
pub enum Awaited {
    /// The watchdog timer.
    KeepAlive,
    /// The hold-off timer.
    Timeout,
    /// The connection attempt.
    Connect,
    /// The transport of the connection.
    Transport,
}

/// What polling the thing that the channel awaits gave.
#[derive(Debug)]
pub enum Polled {
    /// The watchdog timer was polled.
    KeepAlive(Result<Async<()>, RecvError>),
    /// The hold-off timer was polled.
    Timeout(Result<Async<()>, RecvError>),
    /// The connection attempt was polled; it is ready once the connection
    /// stands.
    Connect(Result<Async<()>, Error>),
    /// The transport was polled, before any frame was sent or received in
    /// this step; it is ready once its stream has ended.
    Transport(Result<Async<()>, Error>),
}

impl Polled {
    /// What was polled.
    pub open spec fn subject(self) -> Awaited {
        match self {
            Polled::KeepAlive(_) => Awaited::KeepAlive,
            Polled::Timeout(_) => Awaited::Timeout,
            Polled::Connect(_) => Awaited::Connect,
            Polled::Transport(_) => Awaited::Transport,
        }
    }

    /// Whether the poll found that a connection attempt failed, or that a
    /// connection broke or came to its end.
    pub open spec fn is_connection_failure(self) -> bool {
        match self {
            Polled::Connect(Err(_)) => true,
            Polled::Transport(Err(_)) => true,
            Polled::Transport(Ok(Async::Ready(_))) => true,
            _ => false,
        }
    }

    /// Whether the poll found a timer broken.
    pub open spec fn is_broken_timer(self) -> bool {
        match self {
            Polled::KeepAlive(Err(_)) => true,
            Polled::Timeout(Err(_)) => true,
            _ => false,
        }
    }
}

/// What the driver is to do after the channel made progress, before it
/// polls again.
#[derive(Debug, PartialEq, Eq)]
pub enum Instruction<R> {
    /// The channel began to wait: a hold-off timer of `timeout` seconds is
    /// to be started, and what served the previous state is to be dropped.
    Wait { timeout: u64 },
    /// The channel began to connect: a connection attempt is to be started,
    /// and what served the previous state is to be dropped.
    Connect,
    /// The connection stands: a transport and a frame handler are to be set
    /// up over it, and each of `handlers` is to be registered with that
    /// frame handler for its sequence number, in this order.
    Attach { handlers: Vec<(MessageSeqNo, R)> },
    /// Nothing is to be done but to poll what the channel awaits now: the
    /// watchdog was found to be running, or the stream reported a success.
    Proceed,
    /// A failure was reported by the stream: the frame handler's
    /// `handle_error` is to be called with `seqno` and `error`.
    Fail { seqno: MessageSeqNo, error: Error },
    /// The watchdog's period ran out after activity: a watchdog timer of
    /// `timeout` seconds is to be started in place of the one that fired.
    RestartKeepAlive { timeout: u64 },
    /// The channel has idled for a whole period of the watchdog: it is to
    /// be closed.
    Close,
}

/// The state of the connection as the channel keeps it.
#[derive(Debug)]
pub enum MessageStreamState<P, R, T> {
    /// Holding off for `timeout` seconds before connecting again.
    Wait { timeout: u64 },
    /// Connecting, with the messages submitted meanwhile.
    Connecting { buffer: Vec<BufferedMessage<P, R>> },
    /// Connected.
    Connected { stream: MessageStream<P, T> },
}

/// The state of the connection as contracts see it.
#[verifier::ext_equal]
pub enum StateView<P, R, T> {
    /// Holding off for `timeout` seconds before connecting again.
    Wait { timeout: u64 },
    /// Connecting, with the messages submitted meanwhile, oldest first.
    Connecting { buffer: Seq<BufferedMessage<P, R>> },
    /// Connected, with the message stream of the connection.
    Connected { stream: StreamView<P, T> },
}

/// The message stream that a connection starts with when `buffer` was
/// submitted while it was made: the buffered messages are queued for
/// sending in the order of their submission.
pub open spec fn flushed<P, R, T>(buffer: Seq<BufferedMessage<P, R>>) -> StreamView<P, T> {
    StreamView {
        outgoing: Seq::new(buffer.len(), |i: int| (buffer[i].seqno, buffer[i].message)),
        cancelled: Set::empty(),
        events: Seq::empty(),
    }
}

/// The registration that a buffered message asks for: its handler under
/// its sequence number, if it came with a handler.
pub open spec fn registration<P, R>(buffered: BufferedMessage<P, R>) -> Option<(MessageSeqNo, R)> {
    match buffered.handler {
        Some(handler) => Some((buffered.seqno, handler)),
        None => None,
    }
}

/// `registration`, as a function that can be handed on.
pub open spec fn registration_of<P, R>() -> spec_fn(BufferedMessage<P, R>) -> Option<
    (MessageSeqNo, R),
> {
    |buffered: BufferedMessage<P, R>| registration(buffered)
}

/// The handlers that came with the messages of `buffer`, each with the
/// sequence number of its message, in the order of submission.
pub open spec fn registrations<P, R>(buffer: Seq<BufferedMessage<P, R>>) -> Seq<(MessageSeqNo, R)> {
    buffer.filter_map(registration_of())
}

impl<P, R, T> StateView<P, R, T> {
    /// What the channel awaits in this state.
    pub open spec fn awaits(self) -> Awaited {
        match self {
            StateView::Wait { .. } => Awaited::Timeout,
            StateView::Connecting { .. } => Awaited::Connect,
            StateView::Connected { .. } => Awaited::Transport,
        }
    }

    /// The state after a message was submitted in it.
    pub open spec fn after_submit(
        self,
        seqno: MessageSeqNo,
        message: OutgoingMessage<P>,
        handler: Option<R>,
    ) -> Self {
        match self {
            StateView::Wait { .. } => self,
            StateView::Connecting { buffer } => StateView::Connecting {
                buffer: buffer.push(BufferedMessage { seqno, message, handler }),
            },
            StateView::Connected { stream } => StateView::Connected {
                stream: stream.enqueue(seqno, message),
            },
        }
    }

    /// Whether `submission` tells what became of a message submitted in
    /// this state under `seqno` with `handler`.
    pub open spec fn submits_as(
        self,
        seqno: MessageSeqNo,
        handler: Option<R>,
        submission: Submission<R>,
    ) -> bool {
        match self {
            StateView::Wait { .. } => {
                &&& submission matches Submission::Rejected { seqno: s, handler: h, error }
                &&& s == seqno
                &&& h == handler
                &&& error.is_caused_by(
                    ErrorKind::Unavailable,
                    "TCP stream disconnected (waiting for reconnecting)"@,
                )
            },
            StateView::Connecting { .. } => submission == (Submission::Buffered::<R> { seqno }),
            StateView::Connected { .. } => submission == (Submission::Dispatched { seqno, handler }),
        }
    }
}

impl<P, R, T> View for MessageStreamState<P, R, T> {
    type V = StateView<P, R, T>;

    open spec fn view(&self) -> StateView<P, R, T> {
        match *self {
            MessageStreamState::Wait { timeout } => StateView::Wait { timeout },
            MessageStreamState::Connecting { buffer } => StateView::Connecting { buffer: buffer@ },
            MessageStreamState::Connected { stream } => StateView::Connected { stream: stream@ },
        }
    }
}

impl<P, R, T> MessageStreamState<P, R, T> {
    /// The state in which a channel starts: connecting, with nothing
    /// buffered.
    pub fn new() -> (state: Self)
        ensures
            state@ == (StateView::<P, R, T>::Connecting { buffer: Seq::empty() }),
    {
        MessageStreamState::Connecting { buffer: Vec::new() }
    }

    /// What the channel awaits in this state.
    pub fn awaits(&self) -> (awaited: Awaited)
        ensures
            awaited == self@.awaits(),
    {
        match self {
            MessageStreamState::Wait { .. } => Awaited::Timeout,
            MessageStreamState::Connecting { .. } => Awaited::Connect,
            MessageStreamState::Connected { .. } => Awaited::Transport,
        }
    }

    /// Submits a message under `seqno`.
    ///
    /// While connected the message goes to the stream, and while connecting
    /// to the buffer. While waiting it is discarded: the channel does not
    /// buffer then, and whoever waits for the response is to be told that
    /// the channel is unavailable.
    pub fn send_message(
        &mut self,
        seqno: MessageSeqNo,
        message: OutgoingMessage<P>,
        handler: Option<R>,
    ) -> (submission: Submission<R>)
        ensures
            final(self)@ == old(self)@.after_submit(seqno, message, handler),
            old(self)@.submits_as(seqno, handler, submission),
    {
        match self {
            MessageStreamState::Wait { .. } => {
                let error = Error::with_cause(
                    ErrorKind::Unavailable,
                    "TCP stream disconnected (waiting for reconnecting)",
                );
                Submission::Rejected { seqno, handler, error }
            },
            MessageStreamState::Connecting { buffer } => {
                buffer.push(BufferedMessage { seqno, message, handler });
                Submission::Buffered { seqno }
            },
            MessageStreamState::Connected { stream } => {
                stream.send_message(seqno, message);
                Submission::Dispatched { seqno, handler }
            },
        }
    }
}

/// The state of a channel as contracts see it.
#[verifier::ext_equal]
pub struct ChannelView<P, R, T> {
    /// The watchdog that closes the channel when it idles.
    pub keep_alive: KeepAlive,
    /// The sequence number that the next message gets.
    pub next_seqno: MessageSeqNo,
    /// The state of the connection.
    pub state: StateView<P, R, T>,
    /// The number of connection attempts made since the channel last
    /// worked, the first not counted.
    pub retried_count: nat,
    /// Whether the watchdog has been polled in the running drive step and
    /// found to be running.
    pub keep_alive_polled: bool,
}

impl<P, R, T> ChannelView<P, R, T> {
    /// What the driver is to poll next: the watchdog at the start of every
    /// drive step, and then what serves the state of the connection.
    pub open spec fn awaits(self) -> Awaited {
        if self.keep_alive_polled {
            self.state.awaits()
        } else {
            Awaited::KeepAlive
        }
    }

    /// The channel after a message was submitted.
    pub open spec fn after_submit(self, message: OutgoingMessage<P>, handler: Option<R>) -> Self {
        ChannelView {
            next_seqno: self.next_seqno.successor(),
            state: self.state.after_submit(self.next_seqno, message, handler),
            ..self
        }
    }

    /// The channel as it begins a connection attempt, which it counts. The
    /// attempt starts with nothing buffered.
    pub open spec fn reconnecting(self) -> Self {
        ChannelView {
            state: StateView::Connecting { buffer: Seq::empty() },
            retried_count: self.retried_count + 1,
            ..self
        }
    }

    /// The channel after it was woken up: it leaves a hold-off at once and
    /// stays as it is in any other state.
    pub open spec fn woken(self) -> Self {
        if self.state is Wait {
            self.reconnecting()
        } else {
            self
        }
    }

    /// The channel after a connection attempt failed or a connection was
    /// lost: it holds off for as long as the attempts made so far ask, and
    /// where they ask for no wait it connects again at once. What was
    /// buffered for the attempt, or queued on the connection, is given up
    /// with it.
    pub open spec fn after_failure(self) -> Self {
        match backoff_timeout(self.retried_count) {
            Some(timeout) => ChannelView { state: StateView::Wait { timeout }, ..self },
            None => self.reconnecting(),
        }
    }

    /// What the driver is to do after a connection attempt failed or a
    /// connection was lost.
    pub open spec fn failure_instruction(self) -> Instruction<R> {
        match backoff_timeout(self.retried_count) {
            Some(timeout) => Instruction::Wait { timeout },
            None => Instruction::Connect,
        }
    }

    /// The channel after its message stream, left as `stream`, reported
    /// `event`: a success shows that the channel works, so the attempts are
    /// forgotten and the watchdog's period is extended.
    pub open spec fn after_event(self, stream: StreamView<P, T>, event: MessageStreamEvent<T>)
        -> Self {
        if event.is_ok() {
            ChannelView {
                keep_alive: KeepAlive { extend_period: true, ..self.keep_alive },
                state: StateView::Connected { stream },
                retried_count: 0,
                ..self
            }
        } else {
            ChannelView { state: StateView::Connected { stream }, ..self }
        }
    }

    /// What the driver is to do after the message stream reported `event`.
    pub open spec fn event_instruction(event: MessageStreamEvent<T>) -> Instruction<R> {
        match event {
            MessageStreamEvent::Sent { seqno, result: Err(error) } => Instruction::Fail {
                seqno,
                error,
            },
            MessageStreamEvent::Received { seqno, result: Err(error) } => Instruction::Fail {
                seqno,
                error,
            },
            _ => Instruction::Proceed,
        }
    }

    /// Whether the channel `self`, told that the hold-off timer was polled
    /// with outcome `timer`, becomes `next` and answers `progress`.
    pub open spec fn timeout_polled(
        self,
        timer: Result<Async<()>, RecvError>,
        next: Self,
        progress: Result<Async<Instruction<R>>, Error>,
    ) -> bool {
        match timer {
            Err(_) => next == self && is_broken_timer(progress),
            Ok(Async::NotReady) => next == self && progress == Ok::<_, Error>(
                Async::<Instruction<R>>::NotReady,
            ),
            Ok(Async::Ready(())) => next == self.reconnecting() && progress == Ok::<_, Error>(
                Async::Ready(Instruction::<R>::Connect),
            ),
        }
    }

    /// Whether the channel `self`, connecting with `buffer` and told that
    /// the connection attempt was polled with outcome `connect`, becomes
    /// `next` and answers `progress`.
    pub open spec fn connect_polled(
        self,
        buffer: Seq<BufferedMessage<P, R>>,
        connect: Result<Async<()>, Error>,
        next: Self,
        progress: Result<Async<Instruction<R>>, Error>,
    ) -> bool {
        match connect {
            Err(_) => next == self.after_failure() && progress == Ok::<_, Error>(
                Async::Ready(self.failure_instruction()),
            ),
            Ok(Async::NotReady) => next == self && progress == Ok::<_, Error>(
                Async::<Instruction<R>>::NotReady,
            ),
            Ok(Async::Ready(())) => {
                &&& next == ChannelView { state: StateView::Connected { stream: flushed(buffer) }, ..self }
                &&& progress matches Ok(Async::Ready(Instruction::Attach { handlers }))
                &&& handlers@ == registrations(buffer)
            },
        }
    }

    /// Whether the channel `self`, connected with `stream` and told that
    /// the transport was polled with outcome `transport`, becomes `next` and
    /// answers `progress`.
    pub open spec fn transport_polled(
        self,
        stream: StreamView<P, T>,
        transport: Result<Async<()>, Error>,
        next: Self,
        progress: Result<Async<Instruction<R>>, Error>,
    ) -> bool {
        match stream.after_poll(transport) {
            (_, Err(_)) => next == self.after_failure() && progress == Ok::<_, Error>(
                Async::Ready(self.failure_instruction()),
            ),
            (_, Ok(Async::Ready(None))) => next == self.after_failure() && progress == Ok::<
                _,
                Error,
            >(Async::Ready(self.failure_instruction())),
            (_, Ok(Async::NotReady)) => next == self && progress == Ok::<_, Error>(
                Async::<Instruction<R>>::NotReady,
            ),
            (rest, Ok(Async::Ready(Some(event)))) => next == self.after_event(rest, event)
                && progress == Ok::<_, Error>(Async::Ready(Self::event_instruction(event))),
        }
    }

    /// Whether the channel `self`, told that the watchdog timer was polled
    /// with outcome `timer` at the start of a drive step, becomes `next` and
    /// answers `progress`.
    ///
    /// While the watchdog runs the drive step goes on to the connection.
    /// When its period runs out the channel is closed, unless there was
    /// activity in the period: then the watchdog is started anew and polled
    /// again.
    pub open spec fn watchdog_polled(
        self,
        timer: Result<Async<()>, RecvError>,
        next: Self,
        progress: Result<Async<Instruction<R>>, Error>,
    ) -> bool {
        match timer {
            Err(_) => next == self && is_broken_timer(progress),
            Ok(readiness) => match self.keep_alive.step(readiness is Ready) {
                (_, KeepAliveStep::NotReady) => next == ChannelView {
                    keep_alive_polled: true,
                    ..self
                } && progress == Ok::<_, Error>(Async::Ready(Instruction::<R>::Proceed)),
                (keep_alive, KeepAliveStep::Restart { timeout }) => next == ChannelView {
                    keep_alive,
                    ..self
                } && progress == Ok::<_, Error>(
                    Async::Ready(Instruction::<R>::RestartKeepAlive { timeout }),
                ),
                (_, KeepAliveStep::Expired) => next == self && progress == Ok::<_, Error>(
                    Async::Ready(Instruction::<R>::Close),
                ),
            },
        }
    }

    /// Whether the channel `self`, told of the poll `polled` in the course
    /// of a drive step, becomes `next` and answers `progress`.
    ///
    /// A drive step begins with the watchdog. Once the watchdog is found to
    /// be running, the step follows the connection for as long as there is
    /// progress; it is over, and the next poll begins a new step, when
    /// there is none or when a timer is found broken. A poll of something
    /// that the channel does not await changes nothing and ends the step.
    pub open spec fn driven(
        self,
        polled: Polled,
        next: Self,
        progress: Result<Async<Instruction<R>>, Error>,
    ) -> bool {
        if self.keep_alive_polled {
            &&& self.connection_polled(
                polled,
                ChannelView { keep_alive_polled: true, ..next },
                progress,
            )
            &&& next.keep_alive_polled == (progress matches Ok(Async::Ready(_)))
        } else {
            match polled {
                Polled::KeepAlive(timer) => self.watchdog_polled(timer, next, progress),
                _ => next == self && progress == Ok::<_, Error>(Async::<Instruction<R>>::NotReady),
            }
        }
    }

    /// Whether the channel `self`, told of the poll `polled` of what serves
    /// the state of its connection, becomes `next` and answers `progress`.
    ///
    /// A poll of something that does not serve the state changes nothing
    /// and brings no progress.
    pub open spec fn connection_polled(
        self,
        polled: Polled,
        next: Self,
        progress: Result<Async<Instruction<R>>, Error>,
    ) -> bool {
        match (self.state, polled) {
            (StateView::Wait { .. }, Polled::Timeout(timer)) => self.timeout_polled(
                timer,
                next,
                progress,
            ),
            (StateView::Connecting { buffer }, Polled::Connect(connect)) => self.connect_polled(
                buffer,
                connect,
                next,
                progress,
            ),
            (StateView::Connected { stream }, Polled::Transport(transport)) => self.transport_polled(
                stream,
                transport,
                next,
                progress,
            ),
            _ => next == self && progress == Ok::<_, Error>(Async::<Instruction<R>>::NotReady),
        }
    }
}

/// The client's end of a channel.
#[derive(Debug)]
pub struct ClientSideChannel<P, R, T> {
    keep_alive: KeepAlive,
    next_seqno: MessageSeqNo,
    message_stream: MessageStreamState<P, R, T>,
    exponential_backoff: ExponentialBackoff,
    keep_alive_polled: bool,
}

impl<P, R, T> View for ClientSideChannel<P, R, T> {
    type V = ChannelView<P, R, T>;

    closed spec fn view(&self) -> ChannelView<P, R, T> {
        ChannelView {
            keep_alive: self.keep_alive,
            next_seqno: self.next_seqno,
            state: self.message_stream@,
            retried_count: self.exponential_backoff@,
            keep_alive_polled: self.keep_alive_polled,
        }
    }
}

/// The seconds after which an idle channel is closed, at the earliest.
pub const KEEP_ALIVE_TIMEOUT: u64 = 60 * 10;

impl<P, R, T> ClientSideChannel<P, R, T> {
    /// A channel that has just begun its first connection attempt.
    ///
    /// The driver is to start that attempt, and a watchdog timer of
    /// `KEEP_ALIVE_TIMEOUT` seconds.
    pub fn new() -> (channel: Self)
        ensures
            channel@.keep_alive == (KeepAlive { timeout: KEEP_ALIVE_TIMEOUT, extend_period: false }),
            channel@.next_seqno@ == 0,
            channel@.state == (StateView::<P, R, T>::Connecting { buffer: Seq::empty() }),
            channel@.retried_count == 0,
            !channel@.keep_alive_polled,
    {
        ClientSideChannel {
            keep_alive: KeepAlive::new(KEEP_ALIVE_TIMEOUT),
            next_seqno: MessageSeqNo::new_client_side_seqno(),
            message_stream: MessageStreamState::new(),
            exponential_backoff: ExponentialBackoff::new(),
            keep_alive_polled: false,
        }
    }

    /// What the driver is to poll next.
    pub fn awaits(&self) -> (awaited: Awaited)
        ensures
            awaited == self@.awaits(),
    {
        if self.keep_alive_polled {
            self.message_stream.awaits()
        } else {
            Awaited::KeepAlive
        }
    }

    /// The number of connection attempts made since the channel last
    /// worked, the first not counted.
    pub fn retried_count(&self) -> (n: usize)
        ensures
            n == self@.retried_count,
    {
        self.exponential_backoff.retried_count()
    }

    /// The state of the connection.
    pub fn state(&self) -> (state: &MessageStreamState<P, R, T>)
        ensures
            state@ == self@.state,
    {
        &self.message_stream
    }

    /// The watchdog that closes the channel when it idles.
    pub fn keep_alive(&self) -> (keep_alive: KeepAlive)
        ensures
            keep_alive == self@.keep_alive,
    {
        self.keep_alive
    }

    /// The sequence number that the next message gets.
    pub fn next_seqno(&self) -> (seqno: MessageSeqNo)
        ensures
            seqno == self@.next_seqno,
    {
        self.next_seqno
    }

    /// Submits a message, under the next sequence number of the channel.
    ///
    /// The message is queued for sending if the channel is connected, and
    /// kept until the connection stands if the channel is connecting. It is
    /// rejected, with an error of kind `Unavailable`, if and only if the
    /// channel is waiting before it connects again.
    pub fn send_message(&mut self, message: OutgoingMessage<P>, handler: Option<R>) -> (submission:
        Submission<R>)
        requires
            old(self)@.next_seqno.has_next(),
        ensures
            final(self)@ == old(self)@.after_submit(message, handler),
            old(self)@.state.submits_as(old(self)@.next_seqno, handler, submission),
    {
        let seqno = self.next_seqno.next();
        self.message_stream.send_message(seqno, message, handler)
    }

    /// Ends a hold-off at once. Returns whether the channel was holding
    /// off; if so, the driver is to start a connection attempt in place of
    /// the hold-off timer.
    pub fn force_wakeup(&mut self) -> (woke: bool)
        requires
            old(self)@.state is Wait ==> old(self)@.retried_count < usize::MAX,
        ensures
            final(self)@ == old(self)@.woken(),
            woke == (old(self)@.state is Wait),
    {
        if let MessageStreamState::Wait { .. } = self.message_stream {
            self.exponential_backoff.next();
            self.message_stream = MessageStreamState::Connecting { buffer: Vec::new() };
            true
        } else {
            false
        }
    }

    /// Takes one poll of a drive step: `polled` is what polling the thing
    /// that the channel awaits gave. The answer says what the driver is to
    /// do before it polls what the channel awaits then; on `NotReady`, and
    /// on an error, the drive step is over.
    pub fn poll(&mut self, polled: Polled) -> (progress: Result<Async<Instruction<R>>, Error>)
        requires
            old(self)@.retried_count <= ExponentialBackoff::MAX_RETRIED_COUNT,
        ensures
            old(self)@.driven(polled, final(self)@, progress),
    {
        if self.keep_alive_polled {
            let progress = self.poll_message_stream(polled);
            self.keep_alive_polled = match progress {
                Ok(Async::Ready(_)) => true,
                _ => false,
            };
            progress
        } else {
            match polled {
                Polled::KeepAlive(timer) => match self.keep_alive.poll(timer)? {
                    KeepAliveStep::NotReady => {
                        self.keep_alive_polled = true;
                        Ok(Async::Ready(Instruction::Proceed))
                    },
                    KeepAliveStep::Restart { timeout } => Ok(
                        Async::Ready(Instruction::RestartKeepAlive { timeout }),
                    ),
                    KeepAliveStep::Expired => Ok(Async::Ready(Instruction::Close)),
                },
                _ => Ok(Async::NotReady),
            }
        }
    }

    /// The message stream of the connection, while the channel is
    /// connected: the driver sends and receives frames through it.
    pub fn stream_mut(&mut self) -> (stream: Option<&mut MessageStream<P, T>>)
        ensures
            match stream {
                Some(stream) => {
                    &&& old(self)@.state == StateView::<P, R, T>::Connected { stream: stream@ }
                    &&& final(self)@ == ChannelView {
                        state: StateView::Connected { stream: final(stream)@ },
                        ..old(self)@
                    }
                },
                None => !(old(self)@.state is Connected) && final(self)@ == old(self)@,
            },
    {
        match &mut self.message_stream {
            MessageStreamState::Connected { stream } => Some(stream),
            _ => None,
        }
    }

    /// Moves on after a connection attempt failed or a connection was lost.
    fn retry(&mut self) -> (instruction: Instruction<R>)
        requires
            old(self)@.retried_count <= ExponentialBackoff::MAX_RETRIED_COUNT,
        ensures
            final(self)@ == old(self)@.after_failure(),
            instruction == old(self)@.failure_instruction(),
    {
        if let Some(timeout) = self.exponential_backoff.timeout() {
            self.message_stream = MessageStreamState::Wait { timeout };
            Instruction::Wait { timeout }
        } else {
            self.exponential_backoff.next();
            self.message_stream = MessageStreamState::Connecting { buffer: Vec::new() };
            Instruction::Connect
        }
    }

    /// Takes note of what polling the thing that serves the state of the
    /// connection gave, and says what the driver is to do before it polls
    /// again.
    pub fn poll_message_stream(&mut self, polled: Polled) -> (progress: Result<
        Async<Instruction<R>>,
        Error,
    >)
        requires
            old(self)@.retried_count <= ExponentialBackoff::MAX_RETRIED_COUNT,
        ensures
            old(self)@.connection_polled(polled, final(self)@, progress),
    {
        match polled {
            Polled::KeepAlive(_) => Ok(Async::NotReady),
            Polled::Timeout(timer) => {
                if let MessageStreamState::Wait { .. } = self.message_stream {
                    match timer {
                        Err(e) => Err(from_timeout_error(e)),
                        Ok(Async::NotReady) => Ok(Async::NotReady),
                        Ok(Async::Ready(())) => {
                            self.exponential_backoff.next();
                            self.message_stream = MessageStreamState::Connecting {
                                buffer: Vec::new(),
                            };
                            Ok(Async::Ready(Instruction::Connect))
                        },
                    }
                } else {
                    Ok(Async::NotReady)
                }
            },
            Polled::Connect(connect) => {
                if let MessageStreamState::Connecting { .. } = self.message_stream {
                    match connect {
                        Err(_) => Ok(Async::Ready(self.retry())),
                        Ok(Async::NotReady) => Ok(Async::NotReady),
                        Ok(Async::Ready(())) => {
                            let mut state = MessageStreamState::Wait { timeout: 0 };
                            core::mem::swap(&mut self.message_stream, &mut state);
                            let (next, handlers) = flush(state);
                            self.message_stream = next;
                            Ok(Async::Ready(Instruction::Attach { handlers }))
                        },
                    }
                } else {
                    Ok(Async::NotReady)
                }
            },
            Polled::Transport(transport) => {
                let polled = match &mut self.message_stream {
                    MessageStreamState::Connected { stream } => stream.poll(transport),
                    _ => { return Ok(Async::NotReady); },
                };
                match polled {
                    Err(_) => Ok(Async::Ready(self.retry())),
                    Ok(Async::NotReady) => Ok(Async::NotReady),
                    Ok(Async::Ready(None)) => Ok(Async::Ready(self.retry())),
                    Ok(Async::Ready(Some(event))) => {
                        if event.is_ok() {
                            self.exponential_backoff.reset();
                            self.keep_alive.extend_period();
                        }
                        match event {
                            MessageStreamEvent::Sent { seqno, result: Err(error) } => Ok(
                                Async::Ready(Instruction::Fail { seqno, error }),
                            ),
                            MessageStreamEvent::Received { seqno, result: Err(error) } => Ok(
                                Async::Ready(Instruction::Fail { seqno, error }),
                            ),
                            _ => Ok(Async::Ready(Instruction::Proceed)),
                        }
                    },
                }
            },
        }
    }
}

/// Turns the state of a channel whose connection now stands into the
/// connected state: the buffered messages are queued for sending in the
/// order of their submission, and their handlers are handed out for
/// registration in the same order. Any other state is left as it is.
fn flush<P, R, T>(state: MessageStreamState<P, R, T>) -> (out: (
    MessageStreamState<P, R, T>,
    Vec<(MessageSeqNo, R)>,
))
    ensures
        match state@ {
            StateView::Connecting { buffer } => {
                &&& out.0@ == StateView::<P, R, T>::Connected { stream: flushed(buffer) }
                &&& out.1@ == registrations(buffer)
            },
            _ => out.0@ == state@ && out.1@ == Seq::<(MessageSeqNo, R)>::empty(),
        },
{
    let mut handlers: Vec<(MessageSeqNo, R)> = Vec::new();
    match state {
        MessageStreamState::Connecting { buffer } => {
            let mut stream: MessageStream<P, T> = MessageStream::new();
            let ghost all = buffer@;
            for m in it: buffer.into_iter()
                invariant
                    it.seq() == all,
                    stream@ == flushed::<P, R, T>(all.take(it.index() as int)),
                    handlers@ == registrations(all.take(it.index() as int)),
            {
                proof {
                    let i = it.index() as int;
                    all.lemma_filter_map_take_succ(registration_of(), i);
                    assert(flushed::<P, R, T>(all.take(i + 1)).outgoing =~= flushed::<P, R, T>(
                        all.take(i),
                    ).outgoing.push((m.seqno, m.message)));
                }
                stream.send_message(m.seqno, m.message);
                if let Some(handler) = m.handler {
                    handlers.push((m.seqno, handler));
                }
            }
            proof {
                assert(all.take(all.len() as int) =~= all);
            }
            (MessageStreamState::Connected { stream }, handlers)
        },
        other => (other, handlers),
    }
}

} // verus!
