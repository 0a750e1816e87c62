//! Core logic of an asynchronous QUIC transport adapter: the per-connection
//! driver state machine that pumps packets between a UDP endpoint and a QUIC
//! protocol engine, the stream multiplexer that funnels stream bytes to
//! per-stream queues, and the listener-side connection manager that routes
//! datagrams by connection id and performs stateless retry.
//!
//! The QUIC engine itself (packet encoding, TLS, congestion control) and all
//! socket and timer I/O are external collaborators: this crate holds the
//! decisions the driver and manager make, as verified functions from state
//! and event to next state and action.

use vstd::prelude::*;

pub mod buffer;
pub mod bytes_util;
pub mod config;
pub mod connection;
pub mod driver;
pub mod handshake;
pub mod header;
pub mod manager;
pub mod retry;
pub mod send_state;
pub mod stream;
pub mod stream_id;
pub mod timer;

verus! {

/// Passed between the backend and a stream for exchange of data.
#[derive(Debug, Clone, PartialEq, Eq)]
pub enum Message {
    Data { stream_id: u64, bytes: Vec<u8>, fin: bool },
    /// Contains the id of the stream to be closed
    Close(u64),
}

impl Message {
    /// The stream this message concerns.
    pub open spec fn spec_stream_id(self) -> u64 {
        match self {
            Message::Data { stream_id, .. } => stream_id,
            Message::Close(id) => id,
        }
    }

    pub fn stream_id(&self) -> (id: u64)
        ensures
            id == self.spec_stream_id(),
    {
        match self {
            Message::Data { stream_id, .. } => *stream_id,
            Message::Close(id) => *id,
        }
    }
}

/// The error kinds surfaced by the adapter.
#[derive(Debug, Clone, PartialEq, Eq)]
pub enum Error {
    /// A socket error.
    Io,
    /// An error surfaced by the QUIC engine, with its description.
    Engine(String),
    /// A local open attempted on an in-use stream id.
    IdAlreadyTaken(u64),
    /// The engine closed before reaching established.
    Handshake,
    /// The driver task has ended.
    Closed,
}

} // verus!
