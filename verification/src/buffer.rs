//! The byte-oriented read-ahead buffer carried by every readable stream
//! handle.
//!
//! The storage is `bytes::BytesMut`; its contents are named by
//! [`bytes_mut_view`], and the few methods the buffer logic needs are trusted
//! wrappers whose contracts state what the `bytes` crate's source shows.
//! Everything above those wrappers — how much to serve, in what order, and
//! how the buffer compacts — is verified.

use vstd::prelude::*;

verus! {

use vstd::math::min;

#[verifier::external_type_specification]
#[verifier::external_body]
pub struct ExBytesMut(bytes::BytesMut);

/// The bytes a `BytesMut` holds, in order.
pub uninterp spec fn bytes_mut_view(b: bytes::BytesMut) -> Seq<u8>;

/// Relies on bytes::BytesMut::new: the new buffer has length zero.
#[verifier::external_body]
fn bm_new() -> (r: bytes::BytesMut)
    ensures
        bytes_mut_view(r) === Seq::<u8>::empty(),
{
    bytes::BytesMut::new()
}

/// Relies on bytes::BytesMut::len: the number of bytes contained.
#[verifier::external_body]
fn bm_len(b: &bytes::BytesMut) -> (r: usize)
    ensures
        r == bytes_mut_view(*b).len(),
{
    b.len()
}

/// Relies on indexing through BytesMut's deref to a byte slice.
#[verifier::external_body]
fn bm_byte(b: &bytes::BytesMut, i: usize) -> (r: u8)
    requires
        i < bytes_mut_view(*b).len(),
    ensures
        r == bytes_mut_view(*b)[i as int],
{
    b[i]
}

/// Relies on bytes::BytesMut::extend_from_slice: appends the slice.
#[verifier::external_body]
fn bm_extend(b: &mut bytes::BytesMut, s: &[u8])
    ensures
        bytes_mut_view(*final(b)) === bytes_mut_view(*old(b)) + s@,
{
    b.extend_from_slice(s);
}

/// Relies on bytes::Buf::advance for BytesMut: discards the first `n` bytes
/// (it panics when `n` exceeds the remaining length, so that is excluded).
#[verifier::external_body]
fn bm_advance(b: &mut bytes::BytesMut, n: usize)
    requires
        n <= bytes_mut_view(*old(b)).len(),
    ensures
        bytes_mut_view(*final(b)) === bytes_mut_view(*old(b)).skip(n as int),
{
    bytes::Buf::advance(b, n);
}

/// A read-ahead buffer: inbound stream bytes are appended at the tail and
/// served to the caller from the head.
pub struct ReadBuffer {
    inner: bytes::BytesMut,
}

impl ReadBuffer {
    /// The buffered bytes, oldest first.
    pub closed spec fn view(self) -> Seq<u8> {
        bytes_mut_view(self.inner)
    }

    pub fn new() -> (r: ReadBuffer)
        ensures
            r.view() === Seq::<u8>::empty(),
    {
        ReadBuffer { inner: bm_new() }
    }

    pub fn len(&self) -> (r: usize)
        ensures
            r == self.view().len(),
    {
        bm_len(&self.inner)
    }

    /// Appends newly received stream bytes behind what is already buffered.
    pub fn push(&mut self, bytes: &[u8])
        ensures
            final(self).view() === old(self).view() + bytes@,
    {
        bm_extend(&mut self.inner, bytes);
    }

    /// Serves up to `want` bytes from the head of the buffer and compacts it:
    /// the caller receives the longest buffered prefix that fits, and the
    /// buffer keeps exactly the rest.
    pub fn take(&mut self, want: usize) -> (r: Vec<u8>)
        ensures
            r@ === old(self).view().take(min(want as int, old(self).view().len() as int)),
            final(self).view() === old(self).view().skip(
                min(want as int, old(self).view().len() as int),
            ),
    {
        let len = bm_len(&self.inner);
        let n: usize = if want < len {
            want
        } else {
            len
        };
        let mut out: Vec<u8> = Vec::new();
        let mut i: usize = 0;
        while i < n
            invariant
                i <= n,
                n <= bytes_mut_view(self.inner).len(),
                n == min(want as int, bytes_mut_view(self.inner).len() as int),
                out@ === bytes_mut_view(self.inner).take(i as int),
            decreases n - i,
        {
            let b = bm_byte(&self.inner, i);
            out.push(b);
            i = i + 1;
            proof {
                assert(out@ === bytes_mut_view(self.inner).take(i as int));
            }
        }
        bm_advance(&mut self.inner, n);
        out
    }
}

} // verus!
