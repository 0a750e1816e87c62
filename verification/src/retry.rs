//! Stateless retry: address validation by a keyed MAC.
//!
//! The listener answers a first Initial with a Retry carrying a token that
//! binds the client's address, the original destination connection id, and a
//! mint time. The retried Initial must echo the token; validation recomputes
//! the MAC and checks freshness. The Retry's new source connection id is
//! derived from the same keyed MAC, so a retried packet re-derives the same
//! id for the lifetime of the process key.
//!
//! The MAC is HMAC-SHA-256 through `ring`; everything around the call — the
//! token layout, the truncation, the validation decision — is verified.

use vstd::prelude::*;

use crate::bytes_util::bytes_eq;
use crate::bytes_util::concat_bytes;
use crate::bytes_util::copy_range;
use crate::config::CONNECTION_ID_LEN;

verus! {

/// The HMAC-SHA-256 tag of `data` under `key`: a function of the two
/// arguments alone.
pub uninterp spec fn hmac_sha256_of(key: Seq<u8>, data: Seq<u8>) -> Seq<u8>;

/// Relies on ring::hmac::sign with ring::hmac::HMAC_SHA256: the tag depends
/// on the key and data bytes alone, and an HMAC-SHA-256 tag is 32 bytes (the
/// digest length). Key construction and signing fail only on inputs longer
/// than SHA-256 admits, far beyond the bounds asked for here.
#[verifier::external_body]
fn hmac_sha256(key: &[u8], data: &[u8]) -> (r: Vec<u8>)
    requires
        key@.len() <= 0x1000_0000,
        data@.len() <= 0x1000_0000,
    ensures
        r@ === hmac_sha256_of(key@, data@),
        r@.len() == 32,
{
    let k = ring::hmac::Key::new(ring::hmac::HMAC_SHA256, key);
    ring::hmac::sign(&k, data).as_ref().to_vec()
}

/// A mint time, big-endian.
pub open spec fn spec_u64_be(v: u64) -> Seq<u8> {
    seq![
        (v >> 56) as u8,
        (v >> 48) as u8,
        (v >> 40) as u8,
        (v >> 32) as u8,
        (v >> 24) as u8,
        (v >> 16) as u8,
        (v >> 8) as u8,
        v as u8,
    ]
}

/// The value eight big-endian bytes encode.
pub open spec fn spec_be_u64(s: Seq<u8>) -> u64
    recommends
        s.len() == 8,
{
    ((s[0] as u64) << 56) | ((s[1] as u64) << 48) | ((s[2] as u64) << 40) | ((s[3] as u64)
        << 32) | ((s[4] as u64) << 24) | ((s[5] as u64) << 16) | ((s[6] as u64) << 8) | (
    s[7] as u64)
}

fn u64_to_be(v: u64) -> (r: Vec<u8>)
    ensures
        r@ === spec_u64_be(v),
{
    let mut out: Vec<u8> = Vec::new();
    out.push((v >> 56) as u8);
    out.push((v >> 48) as u8);
    out.push((v >> 40) as u8);
    out.push((v >> 32) as u8);
    out.push((v >> 24) as u8);
    out.push((v >> 16) as u8);
    out.push((v >> 8) as u8);
    out.push(v as u8);
    proof {
        assert(out@ =~= spec_u64_be(v));
    }
    out
}

fn be_to_u64(s: &[u8]) -> (r: u64)
    requires
        s@.len() == 8,
    ensures
        r == spec_be_u64(s@),
{
    ((s[0] as u64) << 56) | ((s[1] as u64) << 48) | ((s[2] as u64) << 40) | ((s[3] as u64)
        << 32) | ((s[4] as u64) << 24) | ((s[5] as u64) << 16) | ((s[6] as u64) << 8) | (
    s[7] as u64)
}

/// Decoding the encoding of a mint time gives the time back.
pub proof fn lemma_u64_be_round_trip(v: u64)
    ensures
        spec_be_u64(spec_u64_be(v)) == v,
{
    assert((((v >> 56) as u8 as u64) << 56) | (((v >> 48) as u8 as u64) << 48) | (((v
        >> 40) as u8 as u64) << 40) | (((v >> 32) as u8 as u64) << 32) | (((v
        >> 24) as u8 as u64) << 24) | (((v >> 16) as u8 as u64) << 16) | (((v
        >> 8) as u8 as u64) << 8) | (v as u8 as u64) == v) by (bit_vector);
}

/// The Retry's new source connection id: the keyed MAC of the client's
/// address bytes and the original destination id, truncated to the
/// connection-id length.
pub open spec fn spec_new_dcid(key: Seq<u8>, from: Seq<u8>, odcid: Seq<u8>) -> Seq<u8> {
    hmac_sha256_of(key, from + odcid).take(CONNECTION_ID_LEN as int)
}

/// Derives the Retry's new source connection id.
pub fn derive_new_dcid(key: &[u8], from: &[u8], odcid: &[u8]) -> (r: Vec<u8>)
    requires
        key@.len() <= 0x1000_0000,
        from@.len() <= 0x0800_0000,
        odcid@.len() <= 0x0800_0000,
    ensures
        r@ === spec_new_dcid(key@, from@, odcid@),
        r@.len() == CONNECTION_ID_LEN,
{
    let data = concat_bytes(from, odcid);
    let mac = hmac_sha256(key, data.as_slice());
    copy_range(mac.as_slice(), 0, CONNECTION_ID_LEN)
}

/// The id a Retry answers with is a function of the client address and the
/// original destination id alone, under one process key: a retried packet
/// re-derives the same id.
pub proof fn lemma_new_dcid_deterministic(
    key: Seq<u8>,
    from1: Seq<u8>,
    odcid1: Seq<u8>,
    from2: Seq<u8>,
    odcid2: Seq<u8>,
)
    requires
        from1 === from2,
        odcid1 === odcid2,
    ensures
        spec_new_dcid(key, from1, odcid1) === spec_new_dcid(key, from2, odcid2),
{
}

/// A retry token: the original destination id's length and bytes, the mint
/// time, and the MAC binding address, id and time under the listener secret.
pub open spec fn spec_retry_token(
    secret: Seq<u8>,
    from: Seq<u8>,
    odcid: Seq<u8>,
    minted_at: u64,
) -> Seq<u8> {
    seq![odcid.len() as u8] + odcid + spec_u64_be(minted_at) + hmac_sha256_of(
        secret,
        from + odcid + spec_u64_be(minted_at),
    )
}

/// What a token must look like, and the original destination id it then
/// vouches for: the declared id length fits, the MAC is the one the secret
/// gives for (address, id, mint time), and the mint time is no later than
/// `now` and no staler than `max_age`.
pub open spec fn spec_validate_token(
    secret: Seq<u8>,
    from: Seq<u8>,
    token: Seq<u8>,
    now: u64,
    max_age: u64,
) -> Option<Seq<u8>> {
    if token.len() < 1 {
        None
    } else {
        let l = token[0] as int;
        if l > 20 || token.len() < 9 + l {
            None
        } else {
            let odcid = token.subrange(1, 1 + l);
            let ts_bytes = token.subrange(1 + l, 9 + l);
            let mac = token.subrange(9 + l, token.len() as int);
            let ts = spec_be_u64(ts_bytes);
            if mac === hmac_sha256_of(secret, from + odcid + ts_bytes) && ts <= now && now - ts
                <= max_age {
                Some(odcid)
            } else {
                None
            }
        }
    }
}

/// Mints the retry token for a first Initial.
pub fn mint_retry_token(secret: &[u8], from: &[u8], odcid: &[u8], minted_at: u64) -> (r:
    Vec<u8>)
    requires
        secret@.len() <= 0x1000_0000,
        from@.len() <= 0x0800_0000,
        odcid@.len() <= 20,
    ensures
        r@ === spec_retry_token(secret@, from@, odcid@, minted_at),
{
    let ts = u64_to_be(minted_at);
    let data = concat_bytes(from, odcid);
    let data2 = concat_bytes(data.as_slice(), ts.as_slice());
    let mac = hmac_sha256(secret, data2.as_slice());
    let mut out: Vec<u8> = Vec::new();
    out.push(odcid.len() as u8);
    let out2 = concat_bytes(out.as_slice(), odcid);
    let out3 = concat_bytes(out2.as_slice(), ts.as_slice());
    let out4 = concat_bytes(out3.as_slice(), mac.as_slice());
    proof {
        assert(out4@ =~= spec_retry_token(secret@, from@, odcid@, minted_at));
    }
    out4
}

/// Validates an echoed token against the sender's address: accepted exactly
/// when it is a well-formed, fresh token whose MAC binds this address, and
/// then it yields the original destination id the connection must be created
/// with.
pub fn validate_retry_token(
    secret: &[u8],
    from: &[u8],
    token: &[u8],
    now: u64,
    max_age: u64,
) -> (r: Option<Vec<u8>>)
    requires
        secret@.len() <= 0x1000_0000,
        from@.len() <= 0x0800_0000,
    ensures
        match r {
            Some(odcid) => spec_validate_token(secret@, from@, token@, now, max_age)
                === Some(odcid@),
            None => spec_validate_token(secret@, from@, token@, now, max_age) is None,
        },
{
    if token.len() < 1 {
        return None;
    }
    let l = token[0] as usize;
    if l > 20 || token.len() < 9 + l {
        return None;
    }
    let odcid = copy_range(token, 1, 1 + l);
    let ts_bytes = copy_range(token, 1 + l, 9 + l);
    let mac = copy_range(token, 9 + l, token.len());
    let ts = be_to_u64(ts_bytes.as_slice());
    let data = concat_bytes(from, odcid.as_slice());
    let data2 = concat_bytes(data.as_slice(), ts_bytes.as_slice());
    let expected = hmac_sha256(secret, data2.as_slice());
    if bytes_eq(mac.as_slice(), expected.as_slice()) && ts <= now && now - ts <= max_age {
        Some(odcid)
    } else {
        None
    }
}

/// Retry round trip: a token minted for (address, original id) at some time
/// validates at any instant within its age bound, and vouches for exactly
/// that original id.
pub proof fn lemma_retry_token_round_trip(
    secret: Seq<u8>,
    from: Seq<u8>,
    odcid: Seq<u8>,
    minted_at: u64,
    now: u64,
    max_age: u64,
)
    requires
        odcid.len() <= 20,
        minted_at <= now,
        now - minted_at <= max_age,
    ensures
        spec_validate_token(
            secret,
            from,
            spec_retry_token(secret, from, odcid, minted_at),
            now,
            max_age,
        ) === Some(odcid),
{
    let token = spec_retry_token(secret, from, odcid, minted_at);
    let l = odcid.len() as int;
    assert(token.len() == 9 + l + hmac_sha256_of(
        secret,
        from + odcid + spec_u64_be(minted_at),
    ).len());
    assert(token[0] == odcid.len() as u8);
    assert(token[0] as int == l);
    assert(token.subrange(1, 1 + l) =~= odcid);
    assert(token.subrange(1 + l, 9 + l) =~= spec_u64_be(minted_at));
    assert(token.subrange(9 + l, token.len() as int) =~= hmac_sha256_of(
        secret,
        from + odcid + spec_u64_be(minted_at),
    ));
    lemma_u64_be_round_trip(minted_at);
}

} // verus!
