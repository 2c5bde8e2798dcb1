use rpc_channel::error::Error;
use rpc_channel::error::ErrorKind;
use rpc_channel::frame::Frame;
use rpc_channel::message::MessageHeader;
use rpc_channel::message::MessageId;
use rpc_channel::message::MessageSeqNo;
use rpc_channel::message::OutgoingMessage;
use rpc_channel::message::ProcedureId;
use rpc_channel::message_stream::FrameDisposition;
use rpc_channel::readiness::Async;
use rpc_channel::server_side_channel::Served;
use rpc_channel::server_side_channel::ServerSideChannel;

fn response(id: u64, payload: &'static str) -> OutgoingMessage<&'static str> {
    OutgoingMessage {
        header: MessageHeader {
            id: MessageId(id),
            procedure: ProcedureId(7),
            priority: 3,
        },
        payload,
    }
}

#[test]
fn new_server_channel_has_nothing_to_do() {
    let mut channel: ServerSideChannel<&str, &str> = ServerSideChannel::new();
    assert_eq!(channel.message_stream_mut().outgoing_len(), 0);
    assert_eq!(channel.poll(Ok(Async::NotReady)), Ok(Async::NotReady));
}

#[test]
fn reply_queues_the_response() {
    let mut channel: ServerSideChannel<&str, &str> = ServerSideChannel::new();
    let seqno = MessageSeqNo::from_u64(3);
    channel.reply(seqno, response(42, "pong"));
    channel.reply(MessageSeqNo::from_u64(4), response(43, "pang"));
    let stream = channel.message_stream_mut();
    assert_eq!(stream.outgoing_len(), 2);
    assert_eq!(stream.next_outgoing(), Some((seqno, response(42, "pong"))));
}

#[test]
fn request_is_handed_upward_as_an_action() {
    let mut channel: ServerSideChannel<&str, &str> = ServerSideChannel::new();
    let frame = Frame {
        seqno: MessageSeqNo::from_u64(1),
        data: b"call",
        end_of_message: true,
        error: false,
    };
    let stream = channel.message_stream_mut();
    assert_eq!(stream.receive_frame(&frame), FrameDisposition::Dispatch);
    stream.record_handled(frame.seqno, frame.end_of_message, Ok(Some("run")));
    assert_eq!(
        channel.poll(Ok(Async::NotReady)),
        Ok(Async::Ready(Served::Action("run")))
    );
    assert_eq!(channel.poll(Ok(Async::NotReady)), Ok(Async::NotReady));
}

#[test]
fn sent_and_failed_events_ask_for_another_poll() {
    let mut channel: ServerSideChannel<&str, &str> = ServerSideChannel::new();
    let seqno = MessageSeqNo::from_u64(3);
    channel.reply(seqno, response(42, "pong"));
    let stream = channel.message_stream_mut();
    let (seqno, message) = stream.next_outgoing().unwrap();
    stream.finish_send(seqno, message, Ok(Some(true)));
    let lost = Error::with_cause(ErrorKind::DecodeError, "bad request");
    stream.record_handled(MessageSeqNo::from_u64(5), false, Err(lost.clone()));

    assert_eq!(
        channel.poll(Ok(Async::NotReady)),
        Ok(Async::Ready(Served::Sent {
            seqno,
            result: Ok(()),
        }))
    );
    assert_eq!(
        channel.poll(Ok(Async::NotReady)),
        Ok(Async::Ready(Served::Failed {
            seqno: MessageSeqNo::from_u64(5),
            error: lost,
        }))
    );
    assert_eq!(channel.poll(Ok(Async::NotReady)), Ok(Async::NotReady));
}

#[test]
fn end_and_error_of_the_transport_end_the_server_channel() {
    let mut channel: ServerSideChannel<&str, &str> = ServerSideChannel::new();
    channel
        .message_stream_mut()
        .record_handled(MessageSeqNo::from_u64(1), true, Ok(Some("run")));
    assert_eq!(
        channel.poll(Ok(Async::Ready(()))),
        Ok(Async::Ready(Served::Finished))
    );
    let broken = Error::with_cause(ErrorKind::StreamAborted, "reset");
    assert_eq!(channel.poll(Err(broken.clone())), Err(broken));
}
