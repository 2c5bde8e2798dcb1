//! What holds of the client's end of a channel in every state.

use crate::client_side_channel::backoff_timeout;
use crate::client_side_channel::registration_of;
use crate::client_side_channel::registrations;
use crate::client_side_channel::Awaited;
use crate::client_side_channel::BufferedMessage;
use crate::client_side_channel::ChannelView;
use crate::client_side_channel::Instruction;
use crate::client_side_channel::KeepAlive;
use crate::client_side_channel::KeepAliveStep;
use crate::client_side_channel::Polled;
use crate::client_side_channel::StateView;
use crate::client_side_channel::Submission;
use crate::error::Error;
use crate::error::ErrorKind;
use crate::message::MessageSeqNo;
use crate::message::OutgoingMessage;
use crate::message_stream::StreamView;
use crate::readiness::Async;
use vstd::arithmetic::power2::lemma2_to64;
use vstd::arithmetic::power2::lemma_pow2_unfold;
use vstd::arithmetic::power2::pow2;
use vstd::bits::lemma_u64_pow2_no_overflow;
use vstd::prelude::*;

verus! {

/// What becomes of a submitted message is decided by the state of the
/// channel alone: it is queued for sending when the channel is connected,
/// buffered when the channel is connecting, and rejected, as unavailable,
/// if and only if the channel is waiting. A rejected message leaves no
/// trace in the channel but the sequence number that it used up.
pub proof fn lemma_submission_fate<P, R, T>(
    channel: ChannelView<P, R, T>,
    message: OutgoingMessage<P>,
    handler: Option<R>,
    submission: Submission<R>,
)
    requires
        channel.state.submits_as(channel.next_seqno, handler, submission),
    ensures
        submission is Rejected <==> channel.state is Wait,
        submission is Buffered <==> channel.state is Connecting,
        submission is Dispatched <==> channel.state is Connected,
        submission matches Submission::Rejected { error, .. } ==> error.kind
            == ErrorKind::Unavailable,
        channel.state is Wait ==> channel.after_submit(message, handler).state == channel.state,
        channel.state matches StateView::Connecting { buffer } ==> channel.after_submit(
            message,
            handler,
        ).state == (StateView::<P, R, T>::Connecting {
            buffer: buffer.push(BufferedMessage { seqno: channel.next_seqno, message, handler }),
        }),
        channel.state matches StateView::Connected { stream } ==> channel.after_submit(
            message,
            handler,
        ).state == (StateView::Connected::<P, R, T> {
            stream: stream.enqueue(channel.next_seqno, message),
        }),
        channel.after_submit(message, handler).retried_count == channel.retried_count,
        channel.after_submit(message, handler).keep_alive == channel.keep_alive,
{
}

/// Every handler that came with a buffered message is among the
/// registrations, under the sequence number of its message, and nothing
/// else is.
pub proof fn lemma_registrations_are_the_buffered_handlers<P, R>(
    buffer: Seq<BufferedMessage<P, R>>,
    seqno: MessageSeqNo,
    handler: R,
)
    ensures
        registrations(buffer).contains((seqno, handler)) <==> exists|i: int|
            0 <= i < buffer.len() && (#[trigger] buffer[i]).seqno == seqno && buffer[i].handler
                == Some(handler),
    decreases buffer.len(),
{
    if registrations(buffer).contains((seqno, handler)) {
        buffer.lemma_filter_map_contains(registration_of(), (seqno, handler));
    }
    if exists|i: int|
        0 <= i < buffer.len() && (#[trigger] buffer[i]).seqno == seqno && buffer[i].handler == Some(
            handler,
        ) {
        let i = choose|i: int|
            0 <= i < buffer.len() && (#[trigger] buffer[i]).seqno == seqno && buffer[i].handler
                == Some(handler);
        let earlier = buffer.drop_last();
        let known = registrations(earlier);
        if i == buffer.len() - 1 {
            assert(registrations(buffer)[known.len() as int] == (seqno, handler));
        } else {
            assert(earlier[i] == buffer[i]);
            lemma_registrations_are_the_buffered_handlers(earlier, seqno, handler);
            let at = choose|at: int| 0 <= at < known.len() && known[at] == (seqno, handler);
            assert(registrations(buffer)[at] == (seqno, handler));
        }
    }
}

/// A message that was buffered while the channel was connecting is sent
/// once the connection stands: the stream of the new connection starts with
/// exactly the buffered messages queued, in the order of their submission,
/// and the handlers that came with them are handed out for registration.
pub proof fn lemma_buffered_messages_are_dispatched<P, R, T>(
    channel: ChannelView<P, R, T>,
    buffer: Seq<BufferedMessage<P, R>>,
    next: ChannelView<P, R, T>,
    progress: Result<Async<Instruction<R>>, Error>,
)
    requires
        channel.state == (StateView::<P, R, T>::Connecting { buffer }),
        channel.connection_polled(Polled::Connect(Ok(Async::Ready(()))), next, progress),
    ensures
        next.state matches StateView::Connected { stream } && {
            &&& stream.outgoing.len() == buffer.len()
            &&& forall|i: int|
                0 <= i < buffer.len() ==> #[trigger] stream.outgoing[i] == (
                    buffer[i].seqno,
                    buffer[i].message,
                )
            &&& stream.cancelled == Set::<u64>::empty()
            &&& stream.events.len() == 0
        },
        progress matches Ok(Async::Ready(Instruction::Attach { handlers })) && handlers@
            == registrations(buffer),
        next.keep_alive == channel.keep_alive,
        next.next_seqno == channel.next_seqno,
        next.retried_count == channel.retried_count,
{
}

/// The hold-offs double: after the first retry the channel waits one
/// second, and after each further retry twice as long as after the one
/// before, up to the sixty-fourth. Before any retry it does not wait.
pub proof fn lemma_backoff_doubles(retried_count: nat)
    requires
        retried_count <= 64,
    ensures
        retried_count == 0 ==> backoff_timeout(retried_count) is None,
        retried_count >= 1 ==> backoff_timeout(retried_count) == Some(
            pow2((retried_count - 1) as nat) as u64,
        ) && pow2((retried_count - 1) as nat) <= u64::MAX,
        retried_count == 1 ==> backoff_timeout(retried_count) == Some(1u64),
        2 <= retried_count ==> backoff_timeout(retried_count)->0 == 2 * backoff_timeout(
            (retried_count - 1) as nat,
        )->0,
{
    if retried_count >= 1 {
        lemma_u64_pow2_no_overflow((retried_count - 1) as nat);
        if retried_count == 1 {
            lemma2_to64();
        } else {
            lemma_u64_pow2_no_overflow((retried_count - 2) as nat);
            lemma_pow2_unfold((retried_count - 1) as nat);
        }
    }
}

/// After a connection attempt fails, or a connection is lost, the channel
/// waits for as long as the retries made so far ask: `2^(n-1)` seconds
/// after the `n`th retry. When no retry was made yet it connects again at
/// once, and counts that as the first retry.
pub proof fn lemma_failure_backs_off<P, R, T>(channel: ChannelView<P, R, T>)
    requires
        channel.retried_count <= 64,
    ensures
        channel.retried_count == 0 ==> channel.after_failure().state == (StateView::<
            P,
            R,
            T,
        >::Connecting { buffer: Seq::empty() }) && channel.after_failure().retried_count == 1
            && channel.failure_instruction() == Instruction::<R>::Connect,
        channel.retried_count >= 1 ==> channel.after_failure().state == (StateView::<
            P,
            R,
            T,
        >::Wait { timeout: pow2((channel.retried_count - 1) as nat) as u64 })
            && channel.after_failure().retried_count == channel.retried_count
            && channel.failure_instruction() == (Instruction::<R>::Wait {
            timeout: pow2((channel.retried_count - 1) as nat) as u64,
        }),
{
}

/// After any event that reports a success no retry counts any more, and
/// the watchdog's period is marked for extension.
pub proof fn lemma_success_restores_channel<P, R, T>(
    channel: ChannelView<P, R, T>,
    stream: StreamView<P, T>,
    transport: Result<Async<()>, Error>,
    next: ChannelView<P, R, T>,
    progress: Result<Async<Instruction<R>>, Error>,
)
    requires
        channel.state == (StateView::<P, R, T>::Connected { stream }),
        channel.connection_polled(Polled::Transport(transport), next, progress),
        stream.after_poll(transport).1 matches Ok(Async::Ready(Some(event))) && event.is_ok(),
    ensures
        next.retried_count == 0,
        next.keep_alive.extend_period,
        next.keep_alive.timeout == channel.keep_alive.timeout,
        next.state is Connected,
        progress == Ok::<_, Error>(Async::Ready(Instruction::<R>::Proceed)),
{
}

/// Waking a channel that is not waiting changes nothing.
pub proof fn lemma_wakeup_outside_wait_is_no_op<P, R, T>(channel: ChannelView<P, R, T>)
    requires
        !(channel.state is Wait),
    ensures
        channel.woken() == channel,
{
}

/// A channel without activity is closed when its watchdog's period runs
/// out for the second time at the latest: the first time at once if there
/// was no activity in the period before, and else the next time.
pub proof fn lemma_idle_channel_closes_within_two_periods(keep_alive: KeepAlive)
    ensures
        keep_alive.step(true).1 == KeepAliveStep::Expired || (keep_alive.step(true).1
            == (KeepAliveStep::Restart { timeout: keep_alive.timeout }) && keep_alive.step(
            true,
        ).0.step(true).1 == KeepAliveStep::Expired),
        !keep_alive.extend_period ==> keep_alive.step(true).1 == KeepAliveStep::Expired,
{
}

/// Every drive step begins with the watchdog: until the watchdog has been
/// polled and found to be running, the channel awaits nothing else, and a
/// poll of anything else changes nothing and ends the step. Once the
/// watchdog was found to be running, the step is over exactly when a poll
/// brings no progress or fails.
pub proof fn lemma_watchdog_comes_first<P, R, T>(
    channel: ChannelView<P, R, T>,
    polled: Polled,
    next: ChannelView<P, R, T>,
    progress: Result<Async<Instruction<R>>, Error>,
)
    requires
        channel.driven(polled, next, progress),
    ensures
        !channel.keep_alive_polled ==> channel.awaits() == Awaited::KeepAlive,
        !channel.keep_alive_polled && !(polled is KeepAlive) ==> next == channel && progress
            == Ok::<_, Error>(Async::<Instruction<R>>::NotReady),
        !channel.keep_alive_polled && next.keep_alive_polled ==> (polled matches Polled::KeepAlive(
            Ok(Async::NotReady),
        )),
        progress matches Ok(Async::Ready(Instruction::Close)) ==> {
            &&& !channel.keep_alive_polled
            &&& !channel.keep_alive.extend_period
            &&& polled matches Polled::KeepAlive(Ok(Async::Ready(_)))
        },
        channel.keep_alive_polled ==> (next.keep_alive_polled <==> progress matches Ok(
            Async::Ready(_),
        )),
        !(progress matches Ok(Async::Ready(_))) ==> !next.keep_alive_polled,
{
}

/// The sequence numbers of a channel never go back: neither a drive step
/// nor a wake-up touches the next number, whatever becomes of the
/// connection, and a submission moves it to its successor.
pub proof fn lemma_seqno_only_advances<P, R, T>(
    channel: ChannelView<P, R, T>,
    polled: Polled,
    next: ChannelView<P, R, T>,
    progress: Result<Async<Instruction<R>>, Error>,
)
    requires
        channel.driven(polled, next, progress) || channel.connection_polled(polled, next, progress),
    ensures
        next.next_seqno == channel.next_seqno,
        channel.woken().next_seqno == channel.next_seqno,
        forall|message: OutgoingMessage<P>, handler: Option<R>|
            (#[trigger] channel.after_submit(message, handler)).next_seqno
                == channel.next_seqno.successor(),
        channel.next_seqno.has_next() ==> channel.next_seqno.successor()@ == channel.next_seqno@
            + 1,
{
}

/// No failure leaves the channel hanging: when a connection attempt fails,
/// or the connection breaks or ends, the channel holds off or connects
/// again and says so at once; and only a broken timer ends the drive with
/// an error.
pub proof fn lemma_failure_never_stalls<P, R, T>(
    channel: ChannelView<P, R, T>,
    polled: Polled,
    next: ChannelView<P, R, T>,
    progress: Result<Async<Instruction<R>>, Error>,
)
    requires
        channel.driven(polled, next, progress),
        channel.awaits() == polled.subject(),
    ensures
        polled.is_connection_failure() ==> {
            &&& next.state is Wait || next.state is Connecting
            &&& progress matches Ok(Async::Ready(instruction))
            &&& instruction is Wait || instruction is Connect
        },
        polled.is_broken_timer() <==> progress is Err,
{
}

} // verus!
