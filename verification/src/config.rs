//! Sizes of the per-connection staging buffers.

use vstd::prelude::*;

verus! {

/// Capacity of the per-connection send staging buffer: one datagram.
pub const MAX_DATAGRAM_SIZE: usize = 1350;

/// Capacity of the per-connection receive staging buffer.
pub const STREAM_BUFFER_SIZE: usize = 65535;

/// Length, in bytes, of the connection ids this adapter mints.
pub const CONNECTION_ID_LEN: usize = 16;

/// The QUIC version this adapter supports (RFC 9000).
pub const SUPPORTED_VERSION: u32 = 1;

} // verus!
