//! What holds of a message stream over many steps.
//!
//! The contracts of `MessageStream` say what each single step does. The
//! laws here follow a stream over sequences of steps: how the messages
//! being sent take turns, which incoming messages are cancelled at any
//! moment, and how many events an incoming message can come to.

use crate::error::Error;
use crate::message::MessageSeqNo;
use crate::message::OutgoingMessage;
use crate::message_stream::Arrival;
use crate::message_stream::MessageStreamEvent;
use crate::message_stream::StreamView;
use vstd::prelude::*;

verus! {

impl<P, T> StreamView<P, T> {
    /// The stream after `rounds` frame-level sends, each of which made
    /// progress without completing its message.
    pub open spec fn after_partial_sends(self, rounds: nat) -> Self
        decreases rounds,
    {
        if rounds == 0 || self.outgoing.len() == 0 {
            self
        } else {
            let (seqno, message) = self.outgoing[0];
            self.after_take().after_send(seqno, message, Ok(Some(false))).after_partial_sends(
                (rounds - 1) as nat,
            )
        }
    }

    /// The stream after the frames of `arrivals` came in, one after the
    /// other.
    pub open spec fn after_arrivals(self, arrivals: Seq<Arrival<T>>) -> Self
        decreases arrivals.len(),
    {
        if arrivals.len() == 0 {
            self
        } else {
            self.after_arrivals(arrivals.drop_last()).after_arrival(arrivals.last())
        }
    }
}

/// A message for which the transport has no room goes back to the front of
/// the queue: the stream is as it was before the message was taken out, so
/// the order of the messages is kept.
pub proof fn lemma_no_room_keeps_order<P, T>(stream: StreamView<P, T>)
    requires
        stream.outgoing.len() > 0,
    ensures
        stream.after_take().after_send(stream.outgoing[0].0, stream.outgoing[0].1, Ok(None))
            == stream,
        !StreamView::<P, T>::send_goes_on(Ok(None)),
{
}

/// Messages that make progress without completing take turns: after
/// `rounds` frame-level sends the first `rounds` messages of the queue have
/// had one frame each, in their order, and stand behind the others in that
/// same order. Once each message has had a frame the queue is as it was at
/// the start. Nothing else changes.
pub proof fn lemma_partial_sends_take_turns<P, T>(stream: StreamView<P, T>, rounds: nat)
    requires
        rounds <= stream.outgoing.len(),
    ensures
        stream.after_partial_sends(rounds).outgoing == stream.outgoing.skip(rounds as int)
            + stream.outgoing.take(rounds as int),
        rounds < stream.outgoing.len() ==> stream.after_partial_sends(rounds).outgoing[0]
            == stream.outgoing[rounds as int],
        stream.after_partial_sends(rounds).cancelled == stream.cancelled,
        stream.after_partial_sends(rounds).events == stream.events,
        stream.after_partial_sends(stream.outgoing.len()) == stream,
{
    lemma_partial_sends_rotate(stream, rounds);
    lemma_partial_sends_rotate(stream, stream.outgoing.len());
}

proof fn lemma_partial_sends_rotate<P, T>(stream: StreamView<P, T>, rounds: nat)
    requires
        rounds <= stream.outgoing.len(),
    ensures
        stream.after_partial_sends(rounds).outgoing =~= stream.outgoing.skip(rounds as int)
            + stream.outgoing.take(rounds as int),
        stream.after_partial_sends(rounds).cancelled == stream.cancelled,
        stream.after_partial_sends(rounds).events == stream.events,
    decreases rounds,
{
    if rounds > 0 {
        let (seqno, message) = stream.outgoing[0];
        let turned = stream.after_take().after_send(seqno, message, Ok(Some(false)));
        lemma_partial_sends_rotate(turned, (rounds - 1) as nat);
        let k = rounds as int;
        assert(turned.outgoing.skip(k - 1) + turned.outgoing.take(k - 1) =~= stream.outgoing.skip(
            k,
        ) + stream.outgoing.take(k));
    }
}

/// The arrival of a frame changes the queue of events by what `emission`
/// says and by nothing else, and never touches the messages being sent.
pub proof fn lemma_arrival_emits<P, T>(stream: StreamView<P, T>, arrival: Arrival<T>)
    ensures
        stream.after_arrival(arrival).outgoing == stream.outgoing,
        stream.after_arrival(arrival).events == match stream.emission(arrival) {
            Some(event) => stream.events.push(event),
            None => stream.events,
        },
        stream.emission(arrival) matches Some(event) ==> event is Received && event.spec_seqno()
            == arrival.seqno,
{
}

/// While a message is cancelled its frames come to no event.
pub proof fn lemma_cancelled_message_is_silent<P, T>(stream: StreamView<P, T>, arrival: Arrival<T>)
    requires
        stream.cancelled.contains(arrival.seqno@),
    ensures
        stream.emission(arrival) is None,
        stream.after_arrival(arrival).events == stream.events,
{
}

/// A message is not cancelled once its last frame has come in, whatever
/// went before and whatever the frame handler answers.
pub proof fn lemma_last_frame_ends_cancellation<P, T>(stream: StreamView<P, T>, arrival: Arrival<T>)
    requires
        arrival.end_of_message,
    ensures
        !stream.after_arrival(arrival).cancelled.contains(arrival.seqno@),
{
}

/// A frame changes the cancellation of its own message only, and a message
/// becomes cancelled only by a frame of it, not its last, on which the
/// frame handler gives up.
pub proof fn lemma_cancellation_begins_with_failure<P, T>(
    stream: StreamView<P, T>,
    arrival: Arrival<T>,
    seqno: u64,
)
    ensures
        seqno != arrival.seqno@ ==> stream.after_arrival(arrival).cancelled.contains(seqno)
            == stream.cancelled.contains(seqno),
        !stream.cancelled.contains(seqno) && stream.after_arrival(arrival).cancelled.contains(seqno)
            ==> arrival.fails_midway(seqno),
        stream.after_arrival(arrival).cancelled.contains(seqno) <==> (if arrival.ends(seqno) {
            false
        } else {
            stream.cancelled.contains(seqno) || arrival.fails_midway(seqno)
        }),
{
}

/// Sending never touches the cancellation of incoming messages.
pub proof fn lemma_sending_keeps_cancellation<P, T>(
    stream: StreamView<P, T>,
    seqno: MessageSeqNo,
    message: OutgoingMessage<P>,
    result: Result<Option<bool>, Error>,
)
    ensures
        stream.enqueue(seqno, message).cancelled == stream.cancelled,
        stream.after_take().cancelled == stream.cancelled,
        stream.after_send(seqno, message, result).cancelled == stream.cancelled,
{
}

/// Which messages are cancelled after any sequence of frames: those that
/// are in the middle of being cancelled, and no others. A message is in the
/// middle of being cancelled when the frame handler gave up on one of its
/// frames, not the last, and its last frame has not come in since; or when
/// it was cancelled at the start and its last frame has not come in.
///
/// In particular a fresh stream over frames none of which made the frame
/// handler give up has nothing cancelled.
pub proof fn lemma_cancelled_is_midway<P, T>(
    stream: StreamView<P, T>,
    arrivals: Seq<Arrival<T>>,
    seqno: u64,
)
    ensures
        stream.after_arrivals(arrivals).cancelled.contains(seqno) <==> {
            ||| stream.cancelled.contains(seqno) && forall|j: int|
                0 <= j < arrivals.len() ==> !(#[trigger] arrivals[j]).ends(seqno)
            ||| exists|i: int|
                0 <= i < arrivals.len() && (#[trigger] arrivals[i]).fails_midway(seqno) && forall|
                    j: int,
                | i < j < arrivals.len() ==> !(#[trigger] arrivals[j]).ends(seqno)
        },
    decreases arrivals.len(),
{
    if arrivals.len() > 0 {
        let earlier = arrivals.drop_last();
        let n = arrivals.len() - 1;
        lemma_cancelled_is_midway(stream, earlier, seqno);
        lemma_cancellation_begins_with_failure(
            stream.after_arrivals(earlier),
            arrivals.last(),
            seqno,
        );
        assert(forall|j: int| 0 <= j < n ==> earlier[j] == arrivals[j]);
    }
}

/// Whether peer and frame handler keep to the protocol over `arrivals`: no
/// frame of a message comes after a frame that closes the message, and the
/// frame handler completes a message on its last frame only.
pub open spec fn orderly<T>(arrivals: Seq<Arrival<T>>) -> bool {
    &&& forall|i: int, j: int|
        0 <= i < j < arrivals.len() ==> !(#[trigger] arrivals[i]).closes(
            (#[trigger] arrivals[j]).seqno@,
        )
    &&& forall|i: int|
        0 <= i < arrivals.len() && (#[trigger] arrivals[i]).completes()
            ==> arrivals[i].end_of_message
}

/// The event that the frame at index `at` of `arrivals` comes to, if any,
/// on a stream that was `stream` before the first of them came in.
pub open spec fn emitted<P, T>(stream: StreamView<P, T>, arrivals: Seq<Arrival<T>>, at: int)
    -> Option<MessageStreamEvent<T>>
    recommends
        0 <= at < arrivals.len(),
{
    stream.after_arrivals(arrivals.take(at)).emission(arrivals[at])
}

/// An incoming message comes to one event at most, as long as peer and
/// frame handler keep to the protocol: of two frames with the same sequence
/// number, not both are reported. So no message is received twice, and none
/// is received after it was reported as lost.
pub proof fn lemma_one_event_per_incoming_message<P, T>(
    stream: StreamView<P, T>,
    arrivals: Seq<Arrival<T>>,
    i: int,
    j: int,
)
    requires
        orderly(arrivals),
        0 <= i < j < arrivals.len(),
        arrivals[i].seqno == arrivals[j].seqno,
    ensures
        !(emitted(stream, arrivals, i) is Some && emitted(stream, arrivals, j) is Some),
{
    let seqno = arrivals[j].seqno@;
    if emitted(stream, arrivals, i) is Some {
        // The handler gave up on frame `i`, and the last frame of the
        // message is not among the frames between `i` and `j`: the message
        // is cancelled when frame `j` comes in.
        let earlier = arrivals.take(j);
        assert(earlier[i].fails_midway(seqno));
        assert(forall|m: int| i < m < earlier.len() ==> !(#[trigger] earlier[m]).ends(seqno));
        lemma_cancelled_is_midway(stream, earlier, seqno);
    }
}

} // verus!
