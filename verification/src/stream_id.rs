//! Stream id accounting.
//!
//! A stream id is a 62-bit unsigned value whose two low bits are fixed by
//! QUIC: bit 0 is the initiator (0 client, 1 server) and bit 1 the
//! directionality (0 bidirectional, 1 unidirectional). The facade accepts a
//! user-chosen 62-bit slot and forms the wire id by shifting it left by two
//! and appending the low bits for the (role, kind) pair.

use vstd::prelude::*;

verus! {

/// The largest count of distinct slots: a slot must fit in 62 bits.
pub open spec fn valid_slot(slot: u64) -> bool {
    slot < 0x4000_0000_0000_0000u64
}

/// Bit 0 of the wire id: set iff the stream was opened by the server.
pub open spec fn server_initiated(id: u64) -> bool {
    id & 0b01 == 0b01
}

/// Bit 1 of the wire id: set iff the stream is unidirectional.
pub open spec fn unidirectional(id: u64) -> bool {
    id & 0b10 == 0b10
}

/// The slot a wire id was formed from.
pub open spec fn slot_of(id: u64) -> u64 {
    id >> 2
}

/// The wire id of a locally opened bidirectional stream.
pub open spec fn spec_bidi_id(slot: u64, is_server: bool) -> u64 {
    if is_server {
        (slot << 2) | 0b01
    } else {
        slot << 2
    }
}

/// The wire id of a locally opened unidirectional (writeable) stream.
pub open spec fn spec_uni_id(slot: u64, is_server: bool) -> u64 {
    if is_server {
        (slot << 2) | 0b11
    } else {
        (slot << 2) | 0b10
    }
}

/// Forms the wire id of a locally opened bidirectional stream.
pub fn bidi_stream_id(slot: u64, is_server: bool) -> (id: u64)
    requires
        valid_slot(slot),
    ensures
        id == spec_bidi_id(slot, is_server),
        !unidirectional(id),
        server_initiated(id) == is_server,
        slot_of(id) == slot,
{
    proof {
        lemma_bidi_id_bits(slot, is_server);
    }
    if is_server {
        (slot << 2) | 0b01
    } else {
        slot << 2
    }
}

/// Forms the wire id of a locally opened unidirectional stream.
pub fn uni_stream_id(slot: u64, is_server: bool) -> (id: u64)
    requires
        valid_slot(slot),
    ensures
        id == spec_uni_id(slot, is_server),
        unidirectional(id),
        server_initiated(id) == is_server,
        slot_of(id) == slot,
{
    proof {
        lemma_uni_id_bits(slot, is_server);
    }
    if is_server {
        (slot << 2) | 0b11
    } else {
        (slot << 2) | 0b10
    }
}

/// A locally formed bidirectional id carries the opener's role in bit 0, a
/// clear bit 1, and the slot in the high bits.
pub proof fn lemma_bidi_id_bits(slot: u64, is_server: bool)
    requires
        valid_slot(slot),
    ensures
        !unidirectional(spec_bidi_id(slot, is_server)),
        server_initiated(spec_bidi_id(slot, is_server)) == is_server,
        slot_of(spec_bidi_id(slot, is_server)) == slot,
{
    assert(((slot << 2) | 0b01) & 0b10 != 0b10 && ((slot << 2) | 0b01) & 0b01 == 0b01
        && ((slot << 2) | 0b01) >> 2 == slot && (slot << 2) & 0b10 != 0b10
        && (slot << 2) & 0b01 != 0b01 && (slot << 2) >> 2 == slot) by (bit_vector)
        requires
            slot < 0x4000_0000_0000_0000u64,
    ;
}

/// A locally formed unidirectional id carries the opener's role in bit 0, a
/// set bit 1, and the slot in the high bits.
pub proof fn lemma_uni_id_bits(slot: u64, is_server: bool)
    requires
        valid_slot(slot),
    ensures
        unidirectional(spec_uni_id(slot, is_server)),
        server_initiated(spec_uni_id(slot, is_server)) == is_server,
        slot_of(spec_uni_id(slot, is_server)) == slot,
{
    assert(((slot << 2) | 0b11) & 0b10 == 0b10 && ((slot << 2) | 0b11) & 0b01 == 0b01
        && ((slot << 2) | 0b11) >> 2 == slot && ((slot << 2) | 0b10) & 0b10 == 0b10
        && ((slot << 2) | 0b10) & 0b01 != 0b01 && ((slot << 2) | 0b10) >> 2 == slot)
        by (bit_vector)
        requires
            slot < 0x4000_0000_0000_0000u64,
    ;
}

/// Two opens on distinct slots never collide, and a bidirectional open never
/// collides with a unidirectional one, whatever the slots.
pub proof fn lemma_open_ids_distinct(a: u64, b: u64, is_server: bool)
    requires
        valid_slot(a),
        valid_slot(b),
    ensures
        a != b ==> spec_bidi_id(a, is_server) != spec_bidi_id(b, is_server),
        a != b ==> spec_uni_id(a, is_server) != spec_uni_id(b, is_server),
        spec_bidi_id(a, is_server) != spec_uni_id(b, is_server),
{
    lemma_bidi_id_bits(a, is_server);
    lemma_bidi_id_bits(b, is_server);
    lemma_uni_id_bits(a, is_server);
    lemma_uni_id_bits(b, is_server);
}

/// Classification of a stream first observed on the receive path, keyed by
/// the id's two low bits and the local role: a peer-initiated unidirectional
/// stream is readable only; everything else surfaces as bidirectional.
pub open spec fn incoming_uni_readable(id: u64, is_server: bool) -> bool {
    (id & 0b11 == 0b10 && is_server) || (id & 0b11 == 0b11 && !is_server)
}

/// A stream classified as readable-unidirectional was opened by the peer and
/// is unidirectional: its low bits carry the peer's role and the
/// unidirectional mark.
pub proof fn lemma_incoming_uni_is_peer_initiated(id: u64, is_server: bool)
    requires
        incoming_uni_readable(id, is_server),
    ensures
        unidirectional(id),
        server_initiated(id) == !is_server,
{
    assert((id & 0b11 == 0b10 ==> id & 0b10 == 0b10 && id & 0b01 != 0b01) && (id & 0b11
        == 0b11 ==> id & 0b10 == 0b10 && id & 0b01 == 0b01)) by (bit_vector);
}

} // verus!
