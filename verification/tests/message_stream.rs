use rpc_channel::error::Error;
use rpc_channel::error::ErrorKind;
use rpc_channel::frame::Frame;
use rpc_channel::frame::HandleFrame;
use rpc_channel::message::MessageHeader;
use rpc_channel::message::MessageId;
use rpc_channel::message::MessageSeqNo;
use rpc_channel::message::OutgoingMessage;
use rpc_channel::message::ProcedureId;
use rpc_channel::message_stream::FrameDisposition;
use rpc_channel::message_stream::MessageStream;
use rpc_channel::message_stream::MessageStreamEvent;
use rpc_channel::readiness::Async;

fn stream_message(id: u64, payload: &'static str) -> OutgoingMessage<&'static str> {
    OutgoingMessage {
        header: MessageHeader {
            id: MessageId(id),
            procedure: ProcedureId(7),
            priority: 0,
        },
        payload,
    }
}

fn stream_frame(seqno: u64, data: &[u8], end_of_message: bool, error: bool) -> Frame<'_> {
    Frame {
        seqno: MessageSeqNo::from_u64(seqno),
        data,
        end_of_message,
        error,
    }
}

#[test]
fn async_tells_ready_from_not_ready() {
    assert!(Async::Ready(1).is_ready());
    assert!(!Async::Ready(1).is_not_ready());
    assert!(Async::<u8>::NotReady.is_not_ready());
    assert!(!Async::<u8>::NotReady.is_ready());
}

#[test]
fn frame_accessors_give_the_fields() {
    let frame = stream_frame(3, b"abc", true, false);
    assert_eq!(frame.data(), b"abc");
    assert!(frame.is_end_of_message());
    assert!(!frame.is_error());
}

#[test]
fn event_is_ok_follows_the_result() {
    let seqno = MessageSeqNo::from_u64(1);
    let sent: MessageStreamEvent<u8> = MessageStreamEvent::Sent {
        seqno,
        result: Ok(()),
    };
    let unsent: MessageStreamEvent<u8> = MessageStreamEvent::Sent {
        seqno,
        result: Err(Error::new(ErrorKind::StreamAborted)),
    };
    let received = MessageStreamEvent::Received {
        seqno,
        result: Ok(5u8),
    };
    let lost: MessageStreamEvent<u8> = MessageStreamEvent::Received {
        seqno,
        result: Err(Error::new(ErrorKind::DecodeError)),
    };
    assert!(sent.is_ok());
    assert!(!unsent.is_ok());
    assert!(received.is_ok());
    assert!(!lost.is_ok());
    assert_eq!(lost.seqno(), seqno);
}

#[test]
fn new_stream_is_empty() {
    let mut stream: MessageStream<&str, u8> = MessageStream::new();
    assert_eq!(stream.outgoing_len(), 0);
    assert_eq!(stream.event_count(), 0);
    assert!(!stream.is_cancelled(MessageSeqNo::from_u64(0)));
    assert_eq!(stream.next_outgoing(), None);
    assert_eq!(stream.poll(Ok(Async::NotReady)), Ok(Async::NotReady));
}

#[test]
fn messages_are_sent_in_the_order_of_submission() {
    let mut stream: MessageStream<&str, u8> = MessageStream::new();
    stream.send_message(MessageSeqNo::from_u64(1), stream_message(10, "a"));
    stream.send_message(MessageSeqNo::from_u64(2), stream_message(11, "b"));
    assert_eq!(stream.outgoing_len(), 2);
    assert_eq!(
        stream.next_outgoing(),
        Some((MessageSeqNo::from_u64(1), stream_message(10, "a")))
    );
    assert_eq!(
        stream.next_outgoing(),
        Some((MessageSeqNo::from_u64(2), stream_message(11, "b")))
    );
    assert_eq!(stream.next_outgoing(), None);
}

#[test]
fn no_room_puts_the_message_back_at_the_front() {
    let mut stream: MessageStream<&str, u8> = MessageStream::new();
    stream.send_message(MessageSeqNo::from_u64(1), stream_message(10, "a"));
    stream.send_message(MessageSeqNo::from_u64(2), stream_message(11, "b"));
    stream.send_message(MessageSeqNo::from_u64(3), stream_message(12, "c"));

    let (seqno, message) = stream.next_outgoing().unwrap();
    assert!(!stream.finish_send(seqno, message, Ok(None)));

    assert_eq!(stream.event_count(), 0);
    assert_eq!(stream.outgoing_len(), 3);
    let order: Vec<u64> = (0..3)
        .map(|_| stream.next_outgoing().unwrap().0.as_u64())
        .collect();
    assert_eq!(order, vec![1, 2, 3]);
}

#[test]
fn partial_progress_interleaves_the_messages() {
    let mut stream: MessageStream<&str, u8> = MessageStream::new();
    stream.send_message(MessageSeqNo::from_u64(1), stream_message(10, "A"));
    stream.send_message(MessageSeqNo::from_u64(2), stream_message(11, "B"));

    let mut turns = Vec::new();
    for _ in 0..5 {
        let (seqno, message) = stream.next_outgoing().unwrap();
        turns.push(message.payload);
        assert!(stream.finish_send(seqno, message, Ok(Some(false))));
    }
    assert_eq!(turns, vec!["A", "B", "A", "B", "A"]);
    assert_eq!(stream.event_count(), 0);
    assert_eq!(stream.outgoing_len(), 2);
}

#[test]
fn completion_and_failure_of_a_send_are_reported() {
    let mut stream: MessageStream<&str, u8> = MessageStream::new();
    stream.send_message(MessageSeqNo::from_u64(1), stream_message(10, "a"));
    stream.send_message(MessageSeqNo::from_u64(2), stream_message(11, "b"));

    let (seqno, message) = stream.next_outgoing().unwrap();
    assert!(stream.finish_send(seqno, message, Ok(Some(true))));
    let (seqno, message) = stream.next_outgoing().unwrap();
    let failure = Error::with_cause(ErrorKind::Other, "encoder broke");
    assert!(stream.finish_send(seqno, message, Err(failure.clone())));

    assert_eq!(stream.outgoing_len(), 0);
    assert_eq!(stream.event_count(), 2);
    assert_eq!(
        stream.poll(Ok(Async::NotReady)),
        Ok(Async::Ready(Some(MessageStreamEvent::Sent {
            seqno: MessageSeqNo::from_u64(1),
            result: Ok(()),
        })))
    );
    assert_eq!(
        stream.poll(Ok(Async::NotReady)),
        Ok(Async::Ready(Some(MessageStreamEvent::Sent {
            seqno: MessageSeqNo::from_u64(2),
            result: Err(failure),
        })))
    );
    assert_eq!(stream.poll(Ok(Async::NotReady)), Ok(Async::NotReady));
}

#[test]
fn one_event_is_handed_out_per_poll() {
    let mut stream: MessageStream<&str, u8> = MessageStream::new();
    let seqno = MessageSeqNo::from_u64(4);
    stream.record_handled(seqno, true, Ok(Some(1)));
    stream.record_handled(MessageSeqNo::from_u64(5), true, Ok(Some(2)));
    assert_eq!(stream.event_count(), 2);
    assert_eq!(
        stream.poll(Ok(Async::NotReady)),
        Ok(Async::Ready(Some(MessageStreamEvent::Received {
            seqno,
            result: Ok(1),
        })))
    );
    assert_eq!(stream.event_count(), 1);
}

#[test]
fn transport_error_and_end_pass_through_poll() {
    let mut stream: MessageStream<&str, u8> = MessageStream::new();
    stream.record_handled(MessageSeqNo::from_u64(4), true, Ok(Some(1)));

    let broken = Error::with_cause(ErrorKind::StreamAborted, "connection reset");
    assert_eq!(stream.poll(Err(broken.clone())), Err(broken));
    assert_eq!(stream.poll(Ok(Async::Ready(()))), Ok(Async::Ready(None)));
    assert_eq!(stream.event_count(), 1);
}

#[test]
fn unfinished_message_comes_to_no_event() {
    let mut stream: MessageStream<&str, u8> = MessageStream::new();
    let frame = stream_frame(6, b"part", false, false);
    assert_eq!(stream.receive_frame(&frame), FrameDisposition::Dispatch);
    stream.record_handled(frame.seqno, frame.end_of_message, Ok(None));
    assert_eq!(stream.event_count(), 0);
    assert!(!stream.is_cancelled(frame.seqno));
}

#[test]
fn peer_abort_is_reported_as_invalid_input() {
    let mut stream: MessageStream<&str, u8> = MessageStream::new();
    let frame = stream_frame(5, b"", true, true);
    assert_eq!(stream.receive_frame(&frame), FrameDisposition::PeerAborted);
    assert_eq!(
        stream.poll(Ok(Async::NotReady)),
        Ok(Async::Ready(Some(MessageStreamEvent::Received {
            seqno: MessageSeqNo::from_u64(5),
            result: Err(Error {
                kind: ErrorKind::InvalidInput,
                cause: None,
            }),
        })))
    );
    assert!(!stream.is_cancelled(MessageSeqNo::from_u64(5)));
    assert_eq!(stream.poll(Ok(Async::NotReady)), Ok(Async::NotReady));
}

/// A frame handler that gives up on the second frame it is shown, and
/// keeps the bytes of the frames it has seen and the losses it was told of.
struct FailsOnSecondFrame {
    seen: Vec<Vec<u8>>,
    lost: Vec<(MessageSeqNo, Error)>,
}

impl HandleFrame for FailsOnSecondFrame {
    type Item = u8;

    fn handle_frame(&mut self, frame: &Frame) -> Result<Option<u8>, Error> {
        self.seen.push(frame.data.to_vec());
        if self.seen.len() == 2 {
            Err(Error::with_cause(ErrorKind::DecodeError, "bad payload"))
        } else {
            Ok(None)
        }
    }

    fn handle_error(&mut self, seqno: MessageSeqNo, error: Error) {
        self.lost.push((seqno, error));
    }
}

#[test]
fn handler_failure_cancels_the_rest_of_the_message() {
    let mut stream: MessageStream<&str, u8> = MessageStream::new();
    let mut handler = FailsOnSecondFrame {
        seen: Vec::new(),
        lost: Vec::new(),
    };
    let seqno = MessageSeqNo::from_u64(9);
    let frames = [
        stream_frame(9, b"one", false, false),
        stream_frame(9, b"two", false, false),
        stream_frame(9, b"three", false, false),
        stream_frame(9, b"four", true, false),
    ];

    let mut dispositions = Vec::new();
    let mut cancelled_after = Vec::new();
    for frame in frames.iter() {
        dispositions.push(stream.handle_frame(frame, &mut handler));
        cancelled_after.push(stream.is_cancelled(seqno));
    }

    assert_eq!(
        dispositions,
        vec![
            FrameDisposition::Dispatch,
            FrameDisposition::Dispatch,
            FrameDisposition::Dropped,
            FrameDisposition::Dropped,
        ]
    );
    assert_eq!(cancelled_after, vec![false, true, true, false]);
    assert_eq!(handler.seen, vec![b"one".to_vec(), b"two".to_vec()]);
    assert_eq!(
        stream.poll(Ok(Async::NotReady)),
        Ok(Async::Ready(Some(MessageStreamEvent::Received {
            seqno,
            result: Err(Error::with_cause(ErrorKind::DecodeError, "bad payload")),
        })))
    );
    assert_eq!(stream.poll(Ok(Async::NotReady)), Ok(Async::NotReady));
}

/// A frame handler that puts the frames of each message together and
/// completes the message on its last frame.
struct Reassembles {
    partial: Vec<(MessageSeqNo, Vec<u8>)>,
}

impl HandleFrame for Reassembles {
    type Item = Vec<u8>;

    fn handle_frame(&mut self, frame: &Frame) -> Result<Option<Vec<u8>>, Error> {
        let at = match self.partial.iter().position(|p| p.0 == frame.seqno) {
            Some(at) => at,
            None => {
                self.partial.push((frame.seqno, Vec::new()));
                self.partial.len() - 1
            }
        };
        self.partial[at].1.extend_from_slice(frame.data);
        if frame.end_of_message {
            Ok(Some(self.partial.remove(at).1))
        } else {
            Ok(None)
        }
    }

    fn handle_error(&mut self, seqno: MessageSeqNo, _error: Error) {
        self.partial.retain(|p| p.0 != seqno);
    }
}

#[test]
fn interleaved_incoming_messages_are_put_together() {
    let mut stream: MessageStream<&str, Vec<u8>> = MessageStream::new();
    let mut handler = Reassembles {
        partial: Vec::new(),
    };
    let frames = [
        stream_frame(1, b"he", false, false),
        stream_frame(2, b"wor", false, false),
        stream_frame(1, b"llo", true, false),
        stream_frame(3, b"", true, true),
        stream_frame(2, b"ld", true, false),
    ];
    let dispositions: Vec<FrameDisposition> = frames
        .iter()
        .map(|frame| stream.handle_frame(frame, &mut handler))
        .collect();
    assert_eq!(
        dispositions,
        vec![
            FrameDisposition::Dispatch,
            FrameDisposition::Dispatch,
            FrameDisposition::Dispatch,
            FrameDisposition::PeerAborted,
            FrameDisposition::Dispatch,
        ]
    );

    let mut events = Vec::new();
    while let Ok(Async::Ready(Some(event))) = stream.poll(Ok(Async::NotReady)) {
        events.push(event);
    }
    assert_eq!(
        events,
        vec![
            MessageStreamEvent::Received {
                seqno: MessageSeqNo::from_u64(1),
                result: Ok(b"hello".to_vec()),
            },
            MessageStreamEvent::Received {
                seqno: MessageSeqNo::from_u64(3),
                result: Err(Error::new(ErrorKind::InvalidInput)),
            },
            MessageStreamEvent::Received {
                seqno: MessageSeqNo::from_u64(2),
                result: Ok(b"world".to_vec()),
            },
        ]
    );
    assert!(handler.partial.is_empty());
}

#[test]
fn handler_failure_on_the_last_frame_cancels_nothing() {
    let mut stream: MessageStream<&str, u8> = MessageStream::new();
    let frame = stream_frame(9, b"only", true, false);
    assert_eq!(stream.receive_frame(&frame), FrameDisposition::Dispatch);
    stream.record_handled(
        frame.seqno,
        frame.end_of_message,
        Err(Error::new(ErrorKind::DecodeError)),
    );
    assert!(!stream.is_cancelled(frame.seqno));
    assert_eq!(stream.event_count(), 1);
}

#[test]
fn cancellation_of_one_message_leaves_the_others_alone() {
    let mut stream: MessageStream<&str, u8> = MessageStream::new();
    stream.record_handled(
        MessageSeqNo::from_u64(9),
        false,
        Err(Error::new(ErrorKind::DecodeError)),
    );
    assert!(stream.is_cancelled(MessageSeqNo::from_u64(9)));

    let other = stream_frame(10, b"x", true, false);
    assert_eq!(stream.receive_frame(&other), FrameDisposition::Dispatch);
    stream.record_handled(other.seqno, other.end_of_message, Ok(Some(3)));
    assert!(stream.is_cancelled(MessageSeqNo::from_u64(9)));

    let aborted = stream_frame(9, b"", false, true);
    assert_eq!(stream.receive_frame(&aborted), FrameDisposition::Dropped);
    assert_eq!(stream.event_count(), 2);
}

#[test]
fn completed_message_is_reported_once() {
    let mut stream: MessageStream<&str, u8> = MessageStream::new();
    let first = stream_frame(1, b"he", false, false);
    let last = stream_frame(1, b"llo", true, false);
    assert_eq!(stream.receive_frame(&first), FrameDisposition::Dispatch);
    stream.record_handled(first.seqno, false, Ok(None));
    assert_eq!(stream.receive_frame(&last), FrameDisposition::Dispatch);
    stream.record_handled(last.seqno, true, Ok(Some(42)));
    assert_eq!(
        stream.poll(Ok(Async::NotReady)),
        Ok(Async::Ready(Some(MessageStreamEvent::Received {
            seqno: MessageSeqNo::from_u64(1),
            result: Ok(42),
        })))
    );
    assert_eq!(stream.poll(Ok(Async::NotReady)), Ok(Async::NotReady));
}
