//! The wire envelope of a message and the numbers that identify messages.

use crate::byte_order::be_bytes_u32;
use crate::byte_order::be_bytes_u64;
use crate::byte_order::be_u32;
use crate::byte_order::be_u64;
use crate::byte_order::lemma_be_u32_round_trip;
use crate::byte_order::lemma_be_u64_round_trip;
use crate::error::Error;
use byteorder::BigEndian;
use byteorder::ByteOrder;
use vstd::prelude::*;

verus! {

/// Message identifier.
///
/// This value is unique within a channel. A request and its response carry
/// the same identifier.
#[derive(Debug, Clone, Copy, PartialEq, Eq, Hash, PartialOrd, Ord, Structural)]
pub struct MessageId(pub u64);

impl MessageId {
    /// Hands out the current identifier and moves on to the one after it.
    ///
    /// Identifiers are not expected to run out; the last one cannot be
    /// stepped over.
    pub fn next(&mut self) -> (id: Self)
        requires
            old(self).0 < u64::MAX,
        ensures
            id == *old(self),
            final(self).0 == old(self).0 + 1,
    {
        let n = self.0;
        self.0 += 1;
        MessageId(n)
    }
}

/// Identifier of a remote procedure.
#[derive(Debug, Clone, Copy, PartialEq, Eq, Hash, PartialOrd, Ord, Structural)]
pub struct ProcedureId(pub u32);

/// The first sequence number that belongs to the server.
pub const SERVER_SIDE_SEQNO_BASE: u64 = 0x8000_0000_0000_0000;

/// Sequence number that ties the frames of one message together on a channel.
///
/// The two ends of a channel number their messages independently: the client
/// draws from the lower half of `u64` and the server from the upper half, so a
/// number drawn at one end never meets one drawn at the other.
#[derive(Debug, Clone, Copy, PartialEq, Eq, Hash, Structural)]
pub struct MessageSeqNo(pub u64);

impl View for MessageSeqNo {
    type V = u64;

    open spec fn view(&self) -> u64 {
        self.0
    }
}

impl MessageSeqNo {
    /// Whether this number lies in the client's half.
    pub open spec fn is_client_side(self) -> bool {
        self@ < SERVER_SIDE_SEQNO_BASE
    }

    /// Whether a number follows this one in the same half.
    pub open spec fn has_next(self) -> bool {
        self@ != SERVER_SIDE_SEQNO_BASE - 1 && self@ != u64::MAX
    }

    /// The number that follows this one.
    pub open spec fn successor(self) -> MessageSeqNo
        recommends
            self.has_next(),
    {
        MessageSeqNo((self@ + 1) as u64)
    }

    /// The first number of the client's half.
    pub fn new_client_side_seqno() -> (seqno: Self)
        ensures
            seqno@ == 0,
    {
        MessageSeqNo(0)
    }

    /// The first number of the server's half.
    pub fn new_server_side_seqno() -> (seqno: Self)
        ensures
            seqno@ == SERVER_SIDE_SEQNO_BASE,
    {
        MessageSeqNo(SERVER_SIDE_SEQNO_BASE)
    }

    /// The sequence number with the given value, as read from a frame.
    pub fn from_u64(n: u64) -> (seqno: Self)
        ensures
            seqno@ == n,
    {
        MessageSeqNo(n)
    }

    /// The value of this sequence number, as written to a frame.
    pub fn as_u64(&self) -> (n: u64)
        ensures
            n == self@,
    {
        self.0
    }

    /// Whether `next` may be called: the half this number lies in is not
    /// used up.
    pub fn can_advance(&self) -> (b: bool)
        ensures
            b == self.has_next(),
    {
        self.0 != SERVER_SIDE_SEQNO_BASE - 1 && self.0 != u64::MAX
    }

    /// Hands out the current number and moves on to the one after it, which
    /// lies in the same half.
    pub fn next(&mut self) -> (seqno: Self)
        requires
            old(self).has_next(),
        ensures
            seqno == *old(self),
            *final(self) == old(self).successor(),
            final(self)@ == old(self)@ + 1,
            final(self).is_client_side() == old(self).is_client_side(),
    {
        let n = self.0;
        self.0 += 1;
        MessageSeqNo(n)
    }
}

/// A number drawn at the client never equals one drawn at the server.
pub proof fn lemma_seqno_halves_disjoint(client: MessageSeqNo, server: MessageSeqNo)
    requires
        client.is_client_side(),
        !server.is_client_side(),
    ensures
        client != server,
{
}

/// The fixed-size envelope that precedes the payload of every message.
#[derive(Debug, Clone, Copy, PartialEq, Eq, Structural)]
pub struct MessageHeader {
    pub id: MessageId,
    pub procedure: ProcedureId,
    /// A hint for the transport; the channel never reorders by it.
    pub priority: u8,
}

impl MessageHeader {
    /// The number of bytes a header takes on the wire.
    pub const SIZE: usize = 8 + 4 + 1;

    /// The thirteen bytes that stand for this header on the wire: the
    /// identifier and the procedure, each big-endian, then the priority.
    pub open spec fn wire_bytes(self) -> Seq<u8> {
        be_bytes_u64(self.id.0) + be_bytes_u32(self.procedure.0) + seq![self.priority]
    }

    /// The header that the first thirteen bytes of `bytes` stand for.
    pub open spec fn from_wire(bytes: Seq<u8>) -> MessageHeader
        recommends
            bytes.len() >= Self::SIZE,
    {
        MessageHeader {
            id: MessageId(be_u64(bytes)),
            procedure: ProcedureId(be_u32(bytes.skip(8))),
            priority: bytes[12],
        }
    }

    /// Writes this header to the first thirteen bytes of `buf`.
    pub fn write(&self, buf: &mut [u8])
        requires
            old(buf)@.len() >= Self::SIZE,
        ensures
            final(buf)@ == self.wire_bytes() + old(buf)@.skip(Self::SIZE as int),
    {
        BigEndian::write_u64(buf, self.id.0);
        let (_, tail) = buf.split_at_mut(8);
        BigEndian::write_u32(tail, self.procedure.0);
        buf[12] = self.priority;
    }

    /// Reads a header from the first thirteen bytes of `buf`.
    pub fn read(buf: &[u8]) -> (header: Self)
        requires
            buf@.len() >= Self::SIZE,
        ensures
            header == Self::from_wire(buf@),
    {
        let id = MessageId(BigEndian::read_u64(buf));
        let (_, tail) = buf.split_at(8);
        let procedure = ProcedureId(BigEndian::read_u32(tail));
        let priority = buf[12];
        MessageHeader { id, procedure, priority }
    }
}

/// Writing a header and reading it back gives the same identifier, procedure
/// and priority, whatever follows the header in the buffer.
pub proof fn lemma_header_round_trip(header: MessageHeader, rest: Seq<u8>)
    ensures
        header.wire_bytes().len() == MessageHeader::SIZE,
        MessageHeader::from_wire(header.wire_bytes() + rest) == header,
{
    // What follows the identifier, and what follows the procedure.
    let after_id = be_bytes_u32(header.procedure.0) + seq![header.priority] + rest;
    let after_procedure = seq![header.priority] + rest;
    lemma_be_u64_round_trip(header.id.0, after_id);
    lemma_be_u32_round_trip(header.procedure.0, after_procedure);
}

/// A message on its way out: the envelope and the encoder of its payload.
#[derive(Debug, PartialEq, Eq)]
pub struct OutgoingMessage<P> {
    pub header: MessageHeader,
    pub payload: P,
}

/// How many bytes an encoder still has to give.
#[derive(Debug, Clone, Copy, PartialEq, Eq, Hash, Structural)]
pub enum ByteCount {
    Finite(u64),
    Infinite,
    Unknown,
}

/// The payload of an outgoing message as contracts see it.
pub struct PayloadView<E, I> {
    /// The encoder that gives the bytes of the payload.
    pub encoder: E,
    /// The item that the encoder has yet to take up, if it has not
    /// started.
    pub item: Option<I>,
}

/// The payload of an outgoing message: an encoder that gives the bytes on
/// demand, and perhaps the item that it is to encode.
///
/// A payload made with an item is lazy. The encoder takes the item up when
/// bytes are first asked for, not before.
///
/// The encoder is not called from here. Whoever asks the payload for bytes
/// first calls `take_item` and starts the encoder with what that gives, and
/// hands the encoder's own answers to `is_idle` and `requiring_bytes`.
#[derive(Debug)]
pub struct OutgoingMessagePayload<E, I> {
    encoder: E,
    item: Option<I>,
}

impl<E, I> View for OutgoingMessagePayload<E, I> {
    type V = PayloadView<E, I>;

    closed spec fn view(&self) -> PayloadView<E, I> {
        PayloadView { encoder: self.encoder, item: self.item }
    }
}

impl<E, I> OutgoingMessagePayload<E, I> {
    /// The payload that an encoder gives which has already taken up its
    /// item.
    pub fn new(encoder: E) -> (payload: Self)
        ensures
            payload@ == (PayloadView::<E, I> { encoder, item: None }),
    {
        OutgoingMessagePayload { encoder, item: None }
    }

    /// The payload that `encoder` gives for `item`, which it takes up only
    /// when bytes are first asked for.
    pub fn with_item(encoder: E, item: I) -> (payload: Self)
        ensures
            payload@ == (PayloadView { encoder, item: Some(item) }),
    {
        OutgoingMessagePayload { encoder, item: Some(item) }
    }

    /// Hands out the item that the encoder has yet to take up. The caller
    /// starts the encoder with it before it asks the encoder for bytes.
    pub fn take_item(&mut self) -> (item: Option<I>)
        ensures
            item == old(self)@.item,
            final(self)@ == (PayloadView::<E, I> { encoder: old(self)@.encoder, item: None }),
    {
        self.item.take()
    }

    /// The encoder.
    pub fn encoder_ref(&self) -> (encoder: &E)
        ensures
            *encoder == self@.encoder,
    {
        &self.encoder
    }

    /// The encoder, to be driven.
    pub fn encoder_mut(&mut self) -> (encoder: &mut E)
        ensures
            *encoder == old(self)@.encoder,
            final(self)@ == (PayloadView { encoder: *final(encoder), item: old(self)@.item }),
    {
        &mut self.encoder
    }

    /// Whether the payload has been given completely, where
    /// `encoder_is_idle` is what the encoder says of itself: a payload
    /// whose item is yet to be taken up is never complete.
    pub fn is_idle(&self, encoder_is_idle: bool) -> (idle: bool)
        ensures
            idle == (self@.item is None && encoder_is_idle),
    {
        self.item.is_none() && encoder_is_idle
    }

    /// How many bytes the payload still has to give, where
    /// `encoder_requires` is what the encoder says of itself: nothing is
    /// known before the item is taken up.
    pub fn requiring_bytes(&self, encoder_requires: ByteCount) -> (count: ByteCount)
        ensures
            count == if self@.item is Some {
                ByteCount::Unknown
            } else {
                encoder_requires
            },
    {
        if self.item.is_some() {
            ByteCount::Unknown
        } else {
            encoder_requires
        }
    }
}

/// How an encoder behaves, as far as the bytes it gives go.
#[verifier::reject_recursive_types(E)]
#[verifier::reject_recursive_types(I)]
pub struct EncoderModel<E, I> {
    /// The encoder after it took up an item.
    pub start: spec_fn(E, I) -> E,
    /// The encoder after one call that offered room for so many bytes, and
    /// the bytes that the call gave.
    pub encode: spec_fn(E, nat) -> (E, Seq<u8>),
}

impl<E, I> EncoderModel<E, I> {
    /// The bytes that `encoder` gives over calls that offer `rooms` bytes
    /// of room, one after the other.
    pub open spec fn bytes(self, encoder: E, rooms: Seq<nat>) -> Seq<u8>
        decreases rooms.len(),
    {
        if rooms.len() == 0 {
            Seq::empty()
        } else {
            let (next, given) = (self.encode)(encoder, rooms[0]);
            given + self.bytes(next, rooms.skip(1))
        }
    }

    /// One call for bytes on a payload: the item, if it is yet to be taken
    /// up, is taken and the encoder started with it, and then the encoder
    /// is asked.
    pub open spec fn payload_encode(self, payload: PayloadView<E, I>, room: nat) -> (
        PayloadView<E, I>,
        Seq<u8>,
    ) {
        let started = match payload.item {
            Some(item) => (self.start)(payload.encoder, item),
            None => payload.encoder,
        };
        let (next, given) = (self.encode)(started, room);
        (PayloadView::<E, I> { encoder: next, item: None }, given)
    }

    /// The bytes that `payload` gives over calls that offer `rooms` bytes
    /// of room, one after the other.
    pub open spec fn payload_bytes(self, payload: PayloadView<E, I>, rooms: Seq<nat>) -> Seq<u8>
        decreases rooms.len(),
    {
        if rooms.len() == 0 {
            Seq::empty()
        } else {
            let (next, given) = self.payload_encode(payload, rooms[0]);
            given + self.payload_bytes(next, rooms.skip(1))
        }
    }
}

/// A payload whose encoder has taken up its item gives the bytes that the
/// encoder gives.
pub proof fn lemma_started_payload_gives_encoder_bytes<E, I>(
    model: EncoderModel<E, I>,
    encoder: E,
    rooms: Seq<nat>,
)
    ensures
        model.payload_bytes(PayloadView::<E, I> { encoder, item: None }, rooms) == model.bytes(
            encoder,
            rooms,
        ),
    decreases rooms.len(),
{
    if rooms.len() > 0 {
        let (next, _) = (model.encode)(encoder, rooms[0]);
        lemma_started_payload_gives_encoder_bytes(model, next, rooms.skip(1));
    }
}

/// A lazy payload gives, for any encoder, any item and any sequence of
/// calls, the bytes that the encoder gives when it is started with the item
/// beforehand.
pub proof fn lemma_lazy_payload_gives_eager_bytes<E, I>(
    model: EncoderModel<E, I>,
    encoder: E,
    item: I,
    rooms: Seq<nat>,
)
    ensures
        model.payload_bytes(PayloadView { encoder, item: Some(item) }, rooms) == model.bytes(
            (model.start)(encoder, item),
            rooms,
        ),
{
    if rooms.len() > 0 {
        let started = (model.start)(encoder, item);
        let (next, _) = (model.encode)(started, rooms[0]);
        lemma_started_payload_gives_encoder_bytes(model, next, rooms.skip(1));
    }
}

/// Chooses, from the header of an incoming message, the handler that will
/// decode its payload.
pub trait AssignIncomingMessageHandler {
    type Handler;

    fn assign_incoming_message_handler(&mut self, header: &MessageHeader) -> Result<
        Self::Handler,
        Error,
    >;
}

} // verus!
