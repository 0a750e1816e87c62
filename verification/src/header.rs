//! Parsing the invariant QUIC header fields the connection manager reads:
//! form, type, version, the two connection ids, and — on an Initial — the
//! address-validation token.
//!
//! A long header (RFC 8999/9000) is: a first byte with the form bit set and
//! the type in bits 4-5, a four-byte version, a length-prefixed destination
//! connection id, a length-prefixed source connection id, and, for an
//! Initial, a variable-length-integer token length followed by the token. A
//! short header carries only the destination id, whose length the endpoint
//! knows out of band.

use vstd::prelude::*;

use crate::bytes_util::copy_range;

verus! {

/// The long-header packet types, from bits 4-5 of the first byte.
#[derive(Debug, Clone, Copy, PartialEq, Eq, Structural)]
pub enum PacketType {
    Initial,
    ZeroRtt,
    Handshake,
    Retry,
}

/// The header fields the manager routes and validates by.
#[derive(Debug, Clone, PartialEq, Eq)]
pub enum Header {
    Long {
        packet_type: PacketType,
        version: u32,
        dcid: Vec<u8>,
        scid: Vec<u8>,
        /// The address-validation token; present exactly on an Initial.
        token: Option<Vec<u8>>,
    },
    Short {
        dcid: Vec<u8>,
    },
}

/// The form bit: set on a long header.
pub open spec fn spec_is_long(s: Seq<u8>) -> bool
    recommends
        s.len() >= 1,
{
    s[0] & 0x80 == 0x80
}

pub open spec fn type_of_bits(bits: u8) -> PacketType {
    if bits == 0 {
        PacketType::Initial
    } else if bits == 1 {
        PacketType::ZeroRtt
    } else if bits == 2 {
        PacketType::Handshake
    } else {
        PacketType::Retry
    }
}

/// The packet type of a long header's first byte.
pub open spec fn spec_long_type(s: Seq<u8>) -> PacketType
    recommends
        s.len() >= 1,
{
    type_of_bits((s[0] >> 4) & 0b11)
}

/// The value four big-endian bytes encode.
pub open spec fn spec_be_u32(s: Seq<u8>) -> u32
    recommends
        s.len() == 4,
{
    ((s[0] as u32) << 24) | ((s[1] as u32) << 16) | ((s[2] as u32) << 8) | (s[3] as u32)
}

/// How many bytes a variable-length integer starting with this byte takes:
/// its two top bits give 1, 2, 4 or 8.
pub open spec fn spec_varint_len(b: u8) -> int {
    if b >> 6 == 0 {
        1
    } else if b >> 6 == 1 {
        2
    } else if b >> 6 == 2 {
        4
    } else {
        8
    }
}

/// A whole variable-length integer lies within the buffer at `off`.
pub open spec fn spec_varint_ok(s: Seq<u8>, off: int) -> bool {
    &&& 0 <= off < s.len()
    &&& off + spec_varint_len(s[off]) <= s.len()
}

/// The value of the variable-length integer at `off`: the first byte's low
/// six bits, extended big-endian by the remaining bytes of its length.
pub open spec fn spec_varint_value(s: Seq<u8>, off: int) -> u64
    recommends
        spec_varint_ok(s, off),
{
    let b0 = (s[off] & 0x3f) as u64;
    let l = spec_varint_len(s[off]);
    if l == 1 {
        b0
    } else if l == 2 {
        (b0 << 8) | (s[off + 1] as u64)
    } else if l == 4 {
        (b0 << 24) | ((s[off + 1] as u64) << 16) | ((s[off + 2] as u64) << 8) | (s[off
            + 3] as u64)
    } else {
        (b0 << 56) | ((s[off + 1] as u64) << 48) | ((s[off + 2] as u64) << 40) | ((s[off
            + 3] as u64) << 32) | ((s[off + 4] as u64) << 24) | ((s[off + 5] as u64) << 16) | ((
        s[off + 6] as u64) << 8) | (s[off + 7] as u64)
    }
}

pub open spec fn spec_dcid_len(s: Seq<u8>) -> int
    recommends
        s.len() >= 6,
{
    s[5] as int
}

pub open spec fn spec_scid_len(s: Seq<u8>) -> int
    recommends
        s.len() >= 7 + spec_dcid_len(s),
{
    s[6 + spec_dcid_len(s)] as int
}

/// Where an Initial's token-length integer starts.
pub open spec fn spec_token_len_off(s: Seq<u8>) -> int {
    7 + spec_dcid_len(s) + spec_scid_len(s)
}

/// An Initial's token-length integer and token both lie within the buffer.
pub open spec fn spec_initial_token_ok(s: Seq<u8>) -> bool {
    let off = spec_token_len_off(s);
    &&& spec_varint_ok(s, off)
    &&& s.len() >= off + spec_varint_len(s[off]) + spec_varint_value(s, off)
}

/// A well-formed long header: both connection ids length-prefixed, at most
/// twenty bytes each, lying within the buffer; an Initial additionally
/// carries its token.
pub open spec fn spec_long_ok(s: Seq<u8>) -> bool {
    &&& s.len() >= 6
    &&& spec_dcid_len(s) <= 20
    &&& s.len() >= 7 + spec_dcid_len(s)
    &&& spec_scid_len(s) <= 20
    &&& s.len() >= spec_token_len_off(s)
    &&& (spec_long_type(s) == PacketType::Initial ==> spec_initial_token_ok(s))
}

/// A parseable datagram: a well-formed long header, or a short header long
/// enough to carry a `cid_len`-byte destination id.
pub open spec fn spec_header_ok(s: Seq<u8>, cid_len: int) -> bool {
    &&& s.len() >= 1
    &&& if spec_is_long(s) {
        spec_long_ok(s)
    } else {
        s.len() >= 1 + cid_len
    }
}

pub open spec fn spec_dcid(s: Seq<u8>) -> Seq<u8>
    recommends
        spec_long_ok(s),
{
    s.subrange(6, 6 + spec_dcid_len(s))
}

pub open spec fn spec_scid(s: Seq<u8>) -> Seq<u8>
    recommends
        spec_long_ok(s),
{
    s.subrange(7 + spec_dcid_len(s), 7 + spec_dcid_len(s) + spec_scid_len(s))
}

/// An Initial's token bytes.
pub open spec fn spec_token(s: Seq<u8>) -> Seq<u8>
    recommends
        spec_long_ok(s),
        spec_long_type(s) == PacketType::Initial,
{
    let off = spec_token_len_off(s);
    let vl = spec_varint_len(s[off]);
    let tl = spec_varint_value(s, off) as int;
    s.subrange(off + vl, off + vl + tl)
}

/// The parsed header matches the buffer: every field is the buffer's.
pub open spec fn spec_header_matches(h: Header, s: Seq<u8>, cid_len: int) -> bool {
    match h {
        Header::Short { dcid } => {
            &&& !spec_is_long(s)
            &&& dcid@ === s.subrange(1, 1 + cid_len)
        },
        Header::Long { packet_type, version, dcid, scid, token } => {
            &&& spec_is_long(s)
            &&& packet_type == spec_long_type(s)
            &&& version == spec_be_u32(s.subrange(1, 5))
            &&& dcid@ === spec_dcid(s)
            &&& scid@ === spec_scid(s)
            &&& if spec_long_type(s) == PacketType::Initial {
                token matches Some(t) && t@ === spec_token(s)
            } else {
                token is None
            }
        },
    }
}

/// Parses the header fields of one datagram. `cid_len` is the length of the
/// connection ids this endpoint mints, used for short headers. Returns
/// `None` exactly when no well-formed header lies at the front of the
/// buffer.
pub fn parse_header(buf: &[u8], cid_len: usize) -> (r: Option<Header>)
    ensures
        r is Some <==> spec_header_ok(buf@, cid_len as int),
        r matches Some(h) ==> spec_header_matches(h, buf@, cid_len as int),
{
    if buf.len() < 1 {
        return None;
    }
    let b0 = buf[0];
    if b0 & 0x80 != 0x80 {
        if buf.len() - 1 < cid_len {
            return None;
        }
        let dcid = copy_range(buf, 1, 1 + cid_len);
        return Some(Header::Short { dcid });
    }
    if buf.len() < 6 {
        return None;
    }
    let version = ((buf[1] as u32) << 24) | ((buf[2] as u32) << 16) | ((buf[3] as u32) << 8) | (
    buf[4] as u32);
    proof {
        assert(buf@.subrange(1, 5)[0] == buf@[1] && buf@.subrange(1, 5)[1] == buf@[2]
            && buf@.subrange(1, 5)[2] == buf@[3] && buf@.subrange(1, 5)[3] == buf@[4]);
    }
    let dl = buf[5] as usize;
    if dl > 20 || buf.len() < 7 + dl {
        return None;
    }
    let dcid = copy_range(buf, 6, 6 + dl);
    let sl = buf[6 + dl] as usize;
    if sl > 20 || buf.len() < 7 + dl + sl {
        return None;
    }
    let scid = copy_range(buf, 7 + dl, 7 + dl + sl);
    let tbits = (b0 >> 4) & 0b11;
    let packet_type = if tbits == 0 {
        PacketType::Initial
    } else if tbits == 1 {
        PacketType::ZeroRtt
    } else if tbits == 2 {
        PacketType::Handshake
    } else {
        PacketType::Retry
    };
    if packet_type != PacketType::Initial {
        return Some(Header::Long { packet_type, version, dcid, scid, token: None });
    }
    let off = 7 + dl + sl;
    if off >= buf.len() {
        return None;
    }
    let lb = buf[off];
    let vl: usize = if lb >> 6 == 0 {
        1
    } else if lb >> 6 == 1 {
        2
    } else if lb >> 6 == 2 {
        4
    } else {
        8
    };
    if buf.len() < off + vl {
        return None;
    }
    let m = (lb & 0x3f) as u64;
    let tl: u64 = if vl == 1 {
        m
    } else if vl == 2 {
        (m << 8) | (buf[off + 1] as u64)
    } else if vl == 4 {
        (m << 24) | ((buf[off + 1] as u64) << 16) | ((buf[off + 2] as u64) << 8) | (buf[off
            + 3] as u64)
    } else {
        (m << 56) | ((buf[off + 1] as u64) << 48) | ((buf[off + 2] as u64) << 40) | ((buf[off
            + 3] as u64) << 32) | ((buf[off + 4] as u64) << 24) | ((buf[off + 5] as u64)
            << 16) | ((buf[off + 6] as u64) << 8) | (buf[off + 7] as u64)
    };
    let remaining = (buf.len() - off - vl) as u64;
    if tl > remaining {
        return None;
    }
    let tlu = tl as usize;
    let token = copy_range(buf, off + vl, off + vl + tlu);
    Some(Header::Long { packet_type, version, dcid, scid, token: Some(token) })
}

} // verus!
