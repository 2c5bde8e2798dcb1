use rpc_channel::error::Error;
use rpc_channel::error::ErrorKind;
use rpc_channel::message::AssignIncomingMessageHandler;
use rpc_channel::message::ByteCount;
use rpc_channel::message::MessageHeader;
use rpc_channel::message::MessageId;
use rpc_channel::message::MessageSeqNo;
use rpc_channel::message::OutgoingMessagePayload;
use rpc_channel::message::ProcedureId;
use rpc_channel::message::SERVER_SIDE_SEQNO_BASE;

#[test]
fn message_id_next_works() {
    let mut message_id = MessageId(0);
    assert_eq!(message_id.0, 0);

    let prev = message_id.next();
    assert_eq!(prev.0, 0);
    assert_eq!(message_id.0, 1);
}

#[test]
fn message_id_next_reaches_the_last_identifier() {
    let mut message_id = MessageId(u64::MAX - 1);
    let prev = message_id.next();
    assert_eq!(prev, MessageId(u64::MAX - 1));
    assert_eq!(message_id, MessageId(u64::MAX));
}

#[test]
fn header_size_is_thirteen_bytes() {
    assert_eq!(MessageHeader::SIZE, 13);
}

#[test]
fn header_write_lays_out_big_endian_fields() {
    let header = MessageHeader {
        id: MessageId(0x0102_0304_0506_0708),
        procedure: ProcedureId(0x0a0b_0c0d),
        priority: 0x7f,
    };
    let mut buf = [0xeeu8; 15];
    header.write(&mut buf);
    assert_eq!(
        buf,
        [1, 2, 3, 4, 5, 6, 7, 8, 0x0a, 0x0b, 0x0c, 0x0d, 0x7f, 0xee, 0xee]
    );
}

#[test]
fn header_read_takes_big_endian_fields() {
    let buf = [
        0x80u8, 0, 0, 0, 0, 0, 0x01, 0x02, 0xff, 0, 0, 0x10, 9, 0xaa, 0xbb,
    ];
    let header = MessageHeader::read(&buf);
    assert_eq!(header.id, MessageId(0x8000_0000_0000_0102));
    assert_eq!(header.procedure, ProcedureId(0xff00_0010));
    assert_eq!(header.priority, 9);
}

#[test]
fn header_read_undoes_write() {
    let headers = [
        MessageHeader {
            id: MessageId(42),
            procedure: ProcedureId(7),
            priority: 0,
        },
        MessageHeader {
            id: MessageId(u64::MAX),
            procedure: ProcedureId(u32::MAX),
            priority: u8::MAX,
        },
        MessageHeader {
            id: MessageId(0),
            procedure: ProcedureId(0),
            priority: 0,
        },
        MessageHeader {
            id: MessageId(0x0123_4567_89ab_cdef),
            procedure: ProcedureId(0xdead_beef),
            priority: 200,
        },
    ];
    for header in headers.iter() {
        let mut buf = [0x55u8; 13];
        header.write(&mut buf);
        assert_eq!(&MessageHeader::read(&buf), header);
    }
}

#[test]
fn header_of_the_happy_request_on_the_wire() {
    let header = MessageHeader {
        id: MessageId(42),
        procedure: ProcedureId(7),
        priority: 0,
    };
    let mut buf = [0xffu8; 13];
    header.write(&mut buf);
    assert_eq!(buf, [0, 0, 0, 0, 0, 0, 0, 42, 0, 0, 0, 7, 0]);
}

#[test]
fn seqno_halves_start_apart() {
    assert_eq!(MessageSeqNo::new_client_side_seqno().as_u64(), 0);
    assert_eq!(
        MessageSeqNo::new_server_side_seqno().as_u64(),
        0x8000_0000_0000_0000
    );
    assert_eq!(SERVER_SIDE_SEQNO_BASE, 1 << 63);
    assert_ne!(
        MessageSeqNo::new_client_side_seqno(),
        MessageSeqNo::new_server_side_seqno()
    );
}

#[test]
fn seqno_next_hands_out_the_current_number() {
    let mut seqno = MessageSeqNo::new_client_side_seqno();
    assert_eq!(seqno.next(), MessageSeqNo::from_u64(0));
    assert_eq!(seqno.next(), MessageSeqNo::from_u64(1));
    assert_eq!(seqno.as_u64(), 2);

    let mut seqno = MessageSeqNo::new_server_side_seqno();
    assert_eq!(seqno.next().as_u64(), 1 << 63);
    assert_eq!(seqno.as_u64(), (1 << 63) + 1);
}

#[test]
fn seqno_cannot_advance_out_of_its_half() {
    assert!(MessageSeqNo::from_u64(0).can_advance());
    assert!(MessageSeqNo::from_u64((1 << 63) - 2).can_advance());
    assert!(!MessageSeqNo::from_u64((1 << 63) - 1).can_advance());
    assert!(MessageSeqNo::from_u64(1 << 63).can_advance());
    assert!(!MessageSeqNo::from_u64(u64::MAX).can_advance());
}

#[test]
fn error_constructors_keep_kind_and_cause() {
    let plain = Error::new(ErrorKind::InvalidInput);
    assert_eq!(plain.kind(), ErrorKind::InvalidInput);
    assert_eq!(plain.cause, None);

    let described = Error::with_cause(ErrorKind::StreamAborted, "reset by peer");
    assert_eq!(described.kind, ErrorKind::StreamAborted);
    assert_eq!(described.cause, Some("reset by peer".to_string()));
}

#[test]
fn lazy_payload_hands_its_item_out_once() {
    let mut payload = OutgoingMessagePayload::with_item("encoder", 17u32);
    assert_eq!(payload.take_item(), Some(17));
    assert_eq!(payload.take_item(), None);
    assert_eq!(*payload.encoder_ref(), "encoder");
}

#[test]
fn started_payload_has_no_item() {
    let mut payload: OutgoingMessagePayload<&str, u32> = OutgoingMessagePayload::new("encoder");
    assert_eq!(payload.take_item(), None);
}

#[test]
fn lazy_payload_is_busy_until_its_item_is_taken() {
    let mut payload = OutgoingMessagePayload::with_item((), 1u8);
    assert!(!payload.is_idle(true));
    assert!(!payload.is_idle(false));
    assert_eq!(
        payload.requiring_bytes(ByteCount::Finite(4)),
        ByteCount::Unknown
    );

    payload.take_item();
    assert!(payload.is_idle(true));
    assert!(!payload.is_idle(false));
    assert_eq!(
        payload.requiring_bytes(ByteCount::Finite(4)),
        ByteCount::Finite(4)
    );
    assert_eq!(
        payload.requiring_bytes(ByteCount::Infinite),
        ByteCount::Infinite
    );
}

/// An encoder that gives the bytes of its item, as many per call as there
/// is room for.
struct Bytes {
    pending: Vec<u8>,
}

impl Bytes {
    fn start(&mut self, item: Vec<u8>) {
        self.pending = item;
    }

    fn encode(&mut self, room: usize) -> Vec<u8> {
        let n = room.min(self.pending.len());
        self.pending.drain(..n).collect()
    }
}

#[test]
fn lazy_payload_gives_the_bytes_of_the_eager_encoder() {
    let item = vec![1u8, 2, 3, 4, 5, 6, 7];
    let rooms = [0usize, 3, 1, 2, 5];

    let mut eager = Bytes { pending: Vec::new() };
    eager.start(item.clone());
    let mut expected = Vec::new();
    for room in rooms.iter() {
        expected.extend(eager.encode(*room));
    }

    let mut lazy = OutgoingMessagePayload::with_item(Bytes { pending: Vec::new() }, item);
    let mut given = Vec::new();
    for room in rooms.iter() {
        if let Some(item) = lazy.take_item() {
            lazy.encoder_mut().start(item);
        }
        given.extend(lazy.encoder_mut().encode(*room));
    }

    assert_eq!(given, expected);
    assert_eq!(given, vec![1, 2, 3, 4, 5, 6, 7]);
    assert!(lazy.is_idle(lazy.encoder_ref().pending.is_empty()));
}

/// Assigns a handler to the messages of one procedure and to no others.
struct OneProcedure {
    procedure: ProcedureId,
    assigned: usize,
}

impl AssignIncomingMessageHandler for OneProcedure {
    type Handler = MessageId;

    fn assign_incoming_message_handler(
        &mut self,
        header: &MessageHeader,
    ) -> Result<Self::Handler, Error> {
        if header.procedure == self.procedure {
            self.assigned += 1;
            Ok(header.id)
        } else {
            Err(Error::with_cause(ErrorKind::InvalidInput, "unknown procedure"))
        }
    }
}

#[test]
fn handler_is_assigned_by_the_header() {
    let mut assigner = OneProcedure {
        procedure: ProcedureId(7),
        assigned: 0,
    };
    let known = MessageHeader {
        id: MessageId(42),
        procedure: ProcedureId(7),
        priority: 0,
    };
    let unknown = MessageHeader {
        id: MessageId(43),
        procedure: ProcedureId(8),
        priority: 0,
    };
    assert_eq!(
        assigner.assign_incoming_message_handler(&known),
        Ok(MessageId(42))
    );
    assert_eq!(
        assigner
            .assign_incoming_message_handler(&unknown)
            .map_err(|e| e.kind),
        Err(ErrorKind::InvalidInput)
    );
    assert_eq!(assigner.assigned, 1);
}
