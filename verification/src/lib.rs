//! The core of a bidirectional, multiplexed RPC channel.
//!
//! One TCP connection carries many messages at a time, each cut into
//! frames that are tagged with the sequence number of their message. This
//! crate holds the state machines of such a channel: the message stream
//! that multiplexes, the client's end that reconnects with growing
//! hold-offs and closes when idle, and the server's end. It also holds the
//! envelope that precedes every message on the wire.
//!
//! The crate performs no I/O and keeps no clock. A driver owns the socket
//! and the timers, polls them, tells the state machines what the polls
//! gave, and carries out what they answer.

pub mod byte_order;
pub mod client_side_channel;
pub mod client_side_channel_laws;
pub mod error;
pub mod frame;
pub mod message;
pub mod message_stream;
pub mod message_stream_laws;
pub mod readiness;
pub mod server_side_channel;
