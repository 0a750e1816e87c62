//! The connection facade: opening locally-initiated streams and classifying
//! incoming ones.
//!
//! A facade owns the per-connection stream map — the set of stream ids with a
//! live per-stream queue. Opening a stream forms the wire id from the user's
//! slot and the connection's role, refuses an id already in the map, and
//! otherwise registers it and hands back a fresh handle.

use vstd::prelude::*;

use crate::stream::BidiStream;
use crate::stream::Readable;
use crate::stream::UncheckedQuicStream;
use crate::stream::UniStream;
use crate::stream::Writeable;
use crate::stream_id::incoming_uni_readable;
use crate::stream_id::spec_bidi_id;
use crate::stream_id::spec_uni_id;
use crate::stream_id::valid_slot;
use crate::stream_id::bidi_stream_id;
use crate::stream_id::uni_stream_id;
use crate::Error;

verus! {

/// Marks the role a connection was created in.
pub trait Backend {}

/// Indicates that the connection is from the client to a server.
pub struct ToServer;

impl Backend for ToServer {}

/// Indicates that the connection is from the server to a client.
pub struct ToClient;

impl Backend for ToClient {}

/// The ids with a live per-stream queue on one connection. Keys are unique;
/// insertion order is irrelevant.
pub struct StreamMap {
    ids: Vec<u64>,
}

impl StreamMap {
    /// The registered ids, in insertion order.
    pub closed spec fn view(self) -> Seq<u64> {
        self.ids@
    }

    /// A stream id appears at most once.
    pub open spec fn wf(self) -> bool {
        self.view().no_duplicates()
    }

    pub fn new() -> (r: StreamMap)
        ensures
            r.wf(),
            r.view() === Seq::<u64>::empty(),
    {
        StreamMap { ids: Vec::new() }
    }

    pub fn contains(&self, id: u64) -> (r: bool)
        ensures
            r == self.view().contains(id),
    {
        let mut i: usize = 0;
        while i < self.ids.len()
            invariant
                i <= self.ids@.len(),
                forall|j: int| 0 <= j < i ==> self.ids@[j] != id,
            decreases self.ids@.len() - i,
        {
            if self.ids[i] == id {
                return true;
            }
            i = i + 1;
        }
        false
    }

    /// Registers a fresh id.
    pub fn insert(&mut self, id: u64)
        requires
            old(self).wf(),
            !old(self).view().contains(id),
        ensures
            final(self).wf(),
            final(self).view() === old(self).view().push(id),
    {
        self.ids.push(id);
    }

    /// Removes an id, if present; the remaining ids keep their order.
    pub fn remove(&mut self, id: u64)
        requires
            old(self).wf(),
        ensures
            final(self).wf(),
            !final(self).view().contains(id),
            forall|x: u64|
                x != id ==> final(self).view().contains(x) == old(self).view().contains(x),
            !old(self).view().contains(id) ==> final(self).view() === old(self).view(),
            old(self).view().contains(id) ==> exists|i: int|
                0 <= i < old(self).view().len() && old(self).view()[i] == id
                    && final(self).view() === old(self).view().subrange(0, i) + old(
                    self,
                ).view().subrange(i + 1, old(self).view().len() as int),
    {
        let mut i: usize = 0;
        while i < self.ids.len()
            invariant
                i <= self.ids@.len(),
                self.ids@ === old(self).ids@,
                self.ids@.no_duplicates(),
                forall|j: int| 0 <= j < i ==> self.ids@[j] != id,
            decreases self.ids@.len() - i,
        {
            if self.ids[i] == id {
                let ghost before = self.ids@;
                self.ids.remove(i);
                proof {
                    assert(self.ids@ =~= before.subrange(0, i as int) + before.subrange(
                        i + 1,
                        before.len() as int,
                    ));
                    lemma_remove_keeps_membership(before, self.ids@, i as int);
                    assert(before === old(self).view());
                    assert(before[i as int] == id);
                    assert(!self.ids@.contains(id));
                    assert forall|x: u64|
                        x != id implies self.ids@.contains(x) == old(self).view().contains(
                        x,
                    ) by {
                        assert(self.ids@.contains(x) == before.contains(x));
                    }
                }
                return ;
            }
            i = i + 1;
        }
    }

    /// Hands out every registered id, for the close broadcast.
    pub fn all_ids(&self) -> (r: Vec<u64>)
        ensures
            r@ === self.view(),
    {
        let mut out: Vec<u64> = Vec::new();
        let mut i: usize = 0;
        while i < self.ids.len()
            invariant
                i <= self.ids@.len(),
                out@ === self.ids@.take(i as int),
            decreases self.ids@.len() - i,
        {
            out.push(self.ids[i]);
            i = i + 1;
        }
        proof {
            assert(out@ =~= self.ids@);
        }
        out
    }

    pub fn len(&self) -> (r: usize)
        ensures
            r == self.view().len(),
    {
        self.ids.len()
    }
}

/// Deleting one position of a duplicate-free sequence keeps every other
/// element's membership and the absence of the deleted one.
proof fn lemma_remove_keeps_membership(before: Seq<u64>, after: Seq<u64>, i: int)
    requires
        before.no_duplicates(),
        0 <= i < before.len(),
        after === before.subrange(0, i) + before.subrange(i + 1, before.len() as int),
    ensures
        after.no_duplicates(),
        !after.contains(before[i]),
        forall|x: u64| x != before[i] ==> after.contains(x) == before.contains(x),
{
    assert forall|x: u64| x != before[i] implies after.contains(x) == before.contains(
        x,
    ) by {
        if before.contains(x) {
            let j = choose|j: int| 0 <= j < before.len() && before[j] == x;
            if j < i {
                assert(after[j] == x);
            } else {
                assert(after[j - 1] == x);
            }
        }
        if after.contains(x) {
            let j = choose|j: int| 0 <= j < after.len() && after[j] == x;
            if j < i {
                assert(before[j] == x);
            } else {
                assert(before[j + 1] == x);
            }
        }
    }
    if after.contains(before[i]) {
        let j = choose|j: int| 0 <= j < after.len() && after[j] == before[i];
        if j < i {
            assert(before[j] == before[i]);
        } else {
            assert(before[j + 1] == before[i]);
        }
    }
}

/// Sum of incoming stream types.
pub enum Incoming {
    Bidi(BidiStream),
    Uni(UniStream<Readable>),
}

impl Incoming {
    pub open spec fn id_spec(self) -> u64 {
        match self {
            Incoming::Bidi(s) => s.id_spec(),
            Incoming::Uni(s) => s.id_spec(),
        }
    }

    /// Classifies a driver-announced stream by its id's low bits and the
    /// local role: a peer-initiated unidirectional stream surfaces readable
    /// only; everything else surfaces bidirectional.
    pub fn from_unchecked(stream: Option<UncheckedQuicStream>, is_server: bool) -> (r:
        Option<Incoming>)
        ensures
            r is Some <==> stream is Some,
            stream matches Some(s) ==> {
                let inc = r->Some_0;
                &&& inc.id_spec() == s.id
                &&& (inc is Uni <==> incoming_uni_readable(s.id, is_server))
            },
    {
        if let Some(stream) = stream {
            let sid = stream.id;
            let low = sid % 4;
            proof {
                assert(sid % 4 == sid & 0b11) by (bit_vector);
            }
            Some(
                if (low == 0b10 && is_server) || (low == 0b11 && !is_server) {
                    Incoming::Uni(UniStream::<Readable>::new(stream.id))
                } else {
                    Incoming::Bidi(BidiStream::new(stream.id))
                },
            )
        } else {
            None
        }
    }
}

/// A connection to a remote host: the user-visible handle that opens
/// locally-initiated streams and receives incoming ones. The driver task and
/// the queues between them are host plumbing; this holds the stream-id
/// accounting.
pub struct QuicConnection<T: Backend> {
    pub stream_map: StreamMap,
    pub state: core::marker::PhantomData<T>,
}

impl<T: Backend> QuicConnection<T> {
    pub open spec fn wf(self) -> bool {
        self.stream_map.wf()
    }

    pub fn new() -> (r: QuicConnection<T>)
        ensures
            r.wf(),
            r.stream_map.view() === Seq::<u64>::empty(),
    {
        QuicConnection { stream_map: StreamMap::new(), state: core::marker::PhantomData }
    }
}

impl QuicConnection<ToClient> {
    /// Classifies the next driver-announced stream; `None` means the driver
    /// has ended.
    pub fn incoming(&mut self, next: Option<UncheckedQuicStream>) -> (r: Option<Incoming>)
        ensures
            *final(self) == *old(self),
            r is Some <==> next is Some,
            next matches Some(s) ==> {
                let inc = r->Some_0;
                &&& inc.id_spec() == s.id
                &&& (inc is Uni <==> incoming_uni_readable(s.id, true))
            },
    {
        Incoming::from_unchecked(next, true)
    }

    /// Opens a new bidi stream to the client.
    ///
    /// # Arguments
    /// * `slot`: A 62 bit integer.
    pub fn bidi(&mut self, slot: u64) -> (r: Result<BidiStream, Error>)
        requires
            old(self).wf(),
            valid_slot(slot),
        ensures
            final(self).wf(),
            old(self).stream_map.view().contains(spec_bidi_id(slot, true)) ==> {
                &&& r == Result::<BidiStream, Error>::Err(
                    Error::IdAlreadyTaken(spec_bidi_id(slot, true)),
                )
                &&& *final(self) == *old(self)
            },
            !old(self).stream_map.view().contains(spec_bidi_id(slot, true)) ==> {
                &&& r matches Result::Ok(s)
                &&& s.wf()
                &&& s.id_spec() == spec_bidi_id(slot, true)
                &&& s.read.fed() === Seq::<u8>::empty()
                &&& s.write.written() === Seq::<u8>::empty()
                &&& !s.write.shutdown_sent()
                &&& final(self).stream_map.view() === old(self).stream_map.view().push(
                    spec_bidi_id(slot, true),
                )
            },
    {
        let id = bidi_stream_id(slot, true);
        if self.stream_map.contains(id) {
            return Err(Error::IdAlreadyTaken(id));
        }
        self.stream_map.insert(id);
        Ok(BidiStream::new(id))
    }

    /// Opens a new uni stream to the client.
    ///
    /// # Arguments
    /// * `slot`: A 62 bit integer.
    pub fn uni(&mut self, slot: u64) -> (r: Result<UniStream<Writeable>, Error>)
        requires
            old(self).wf(),
            valid_slot(slot),
        ensures
            final(self).wf(),
            old(self).stream_map.view().contains(spec_uni_id(slot, true)) ==> {
                &&& r == Result::<UniStream<Writeable>, Error>::Err(
                    Error::IdAlreadyTaken(spec_uni_id(slot, true)),
                )
                &&& *final(self) == *old(self)
            },
            !old(self).stream_map.view().contains(spec_uni_id(slot, true)) ==> {
                &&& r matches Result::Ok(s)
                &&& s.wf()
                &&& s.id_spec() == spec_uni_id(slot, true)
                &&& s.write.written() === Seq::<u8>::empty()
                &&& !s.write.shutdown_sent()
                &&& final(self).stream_map.view() === old(self).stream_map.view().push(
                    spec_uni_id(slot, true),
                )
            },
    {
        let id = uni_stream_id(slot, true);
        if self.stream_map.contains(id) {
            return Err(Error::IdAlreadyTaken(id));
        }
        self.stream_map.insert(id);
        Ok(UniStream::<Writeable>::new(id))
    }
}

impl QuicConnection<ToServer> {
    /// Classifies the next driver-announced stream; `None` means the driver
    /// has ended.
    pub fn incoming(&mut self, next: Option<UncheckedQuicStream>) -> (r: Option<Incoming>)
        ensures
            *final(self) == *old(self),
            r is Some <==> next is Some,
            next matches Some(s) ==> {
                let inc = r->Some_0;
                &&& inc.id_spec() == s.id
                &&& (inc is Uni <==> incoming_uni_readable(s.id, false))
            },
    {
        Incoming::from_unchecked(next, false)
    }

    /// Opens a new bidi stream to the server.
    ///
    /// # Arguments
    /// * `slot`: A 62 bit integer.
    pub fn bidi(&mut self, slot: u64) -> (r: Result<BidiStream, Error>)
        requires
            old(self).wf(),
            valid_slot(slot),
        ensures
            final(self).wf(),
            old(self).stream_map.view().contains(spec_bidi_id(slot, false)) ==> {
                &&& r == Result::<BidiStream, Error>::Err(
                    Error::IdAlreadyTaken(spec_bidi_id(slot, false)),
                )
                &&& *final(self) == *old(self)
            },
            !old(self).stream_map.view().contains(spec_bidi_id(slot, false)) ==> {
                &&& r matches Result::Ok(s)
                &&& s.wf()
                &&& s.id_spec() == spec_bidi_id(slot, false)
                &&& s.read.fed() === Seq::<u8>::empty()
                &&& s.write.written() === Seq::<u8>::empty()
                &&& !s.write.shutdown_sent()
                &&& final(self).stream_map.view() === old(self).stream_map.view().push(
                    spec_bidi_id(slot, false),
                )
            },
    {
        let id = bidi_stream_id(slot, false);
        if self.stream_map.contains(id) {
            return Err(Error::IdAlreadyTaken(id));
        }
        self.stream_map.insert(id);
        Ok(BidiStream::new(id))
    }

    /// Opens a new uni stream to the server.
    ///
    /// # Arguments
    /// * `slot`: A 62 bit integer.
    pub fn uni(&mut self, slot: u64) -> (r: Result<UniStream<Writeable>, Error>)
        requires
            old(self).wf(),
            valid_slot(slot),
        ensures
            final(self).wf(),
            old(self).stream_map.view().contains(spec_uni_id(slot, false)) ==> {
                &&& r == Result::<UniStream<Writeable>, Error>::Err(
                    Error::IdAlreadyTaken(spec_uni_id(slot, false)),
                )
                &&& *final(self) == *old(self)
            },
            !old(self).stream_map.view().contains(spec_uni_id(slot, false)) ==> {
                &&& r matches Result::Ok(s)
                &&& s.wf()
                &&& s.id_spec() == spec_uni_id(slot, false)
                &&& s.write.written() === Seq::<u8>::empty()
                &&& !s.write.shutdown_sent()
                &&& final(self).stream_map.view() === old(self).stream_map.view().push(
                    spec_uni_id(slot, false),
                )
            },
    {
        let id = uni_stream_id(slot, false);
        if self.stream_map.contains(id) {
            return Err(Error::IdAlreadyTaken(id));
        }
        self.stream_map.insert(id);
        Ok(UniStream::<Writeable>::new(id))
    }
}

} // verus!
