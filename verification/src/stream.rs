//! Stream handles and the per-handle read/write state.
//!
//! A readable handle owns a read-ahead buffer fed by the driver; a writeable
//! handle turns user writes into [`Message`]s for the connection's shared
//! outbound queue. The queues themselves are host plumbing; the handles here
//! hold every decision: what a read serves, what a write enqueues, and when a
//! shutdown enqueues a close.

use vstd::prelude::*;

use crate::buffer::ReadBuffer;
use crate::Error;
use crate::Message;

verus! {

use vstd::math::min;

pub trait UniMode {}

pub struct Writeable;

impl UniMode for Writeable {}

pub struct Readable;

impl UniMode for Readable {}

/// What one poll of a readable handle yields once the receive event is in
/// hand.
pub enum ReadOutcome {
    /// Bytes served from the read-ahead buffer; may be empty.
    Read(Vec<u8>),
    /// The stream is closed and drained.
    BrokenPipe,
    /// The driver surfaced an engine error for this stream.
    Failed(Error),
}

/// The receive event a readable handle reacts to: the next item of its
/// per-stream queue, or the news that the queue is closed and empty.
pub enum RecvEvent {
    Item(Result<Message, Error>),
    ChannelClosed,
}

/// The readable half of a stream: the read-ahead buffer and its bookkeeping.
///
/// `fed` records every byte the driver has delivered for this stream and
/// `served` every byte handed to the caller; well-formedness pins the buffer
/// to hold exactly the delivered bytes not yet served, so reads can only ever
/// surface the delivered bytes, in delivery order.
pub struct ReadHalf {
    id: u64,
    buffer: ReadBuffer,
    fin_seen: bool,
    receiver_closed: bool,
    fed: Ghost<Seq<u8>>,
    served: Ghost<Seq<u8>>,
}

impl ReadHalf {
    pub closed spec fn id_spec(self) -> u64 {
        self.id
    }

    /// Every byte delivered by the driver, in order.
    pub closed spec fn fed(self) -> Seq<u8> {
        self.fed@
    }

    /// Every byte handed to the caller, in order.
    pub closed spec fn served(self) -> Seq<u8> {
        self.served@
    }

    /// Bytes delivered but not yet served.
    pub closed spec fn buffered(self) -> Seq<u8> {
        self.buffer.view()
    }

    /// A FIN has been delivered for this stream.
    pub closed spec fn fin_seen(self) -> bool {
        self.fin_seen
    }

    /// The per-stream queue is closed: after the buffer drains, reads surface
    /// a broken pipe.
    pub closed spec fn receiver_closed(self) -> bool {
        self.receiver_closed
    }

    /// The buffer holds exactly the delivered bytes not yet served.
    pub open spec fn wf(self) -> bool {
        self.served() + self.buffered() === self.fed()
    }

    pub fn new(id: u64) -> (r: ReadHalf)
        ensures
            r.wf(),
            r.id_spec() == id,
            r.fed() === Seq::<u8>::empty(),
            r.served() === Seq::<u8>::empty(),
            !r.fin_seen(),
            !r.receiver_closed(),
    {
        ReadHalf {
            id,
            buffer: ReadBuffer::new(),
            fin_seen: false,
            receiver_closed: false,
            fed: Ghost(Seq::empty()),
            served: Ghost(Seq::empty()),
        }
    }

    pub fn id(&self) -> (r: u64)
        ensures
            r == self.id_spec(),
    {
        self.id
    }

    /// Takes delivery of a data message: the bytes join the read-ahead
    /// buffer behind everything already delivered, and a FIN closes the
    /// receiving side once the buffer drains.
    pub fn accept_data(&mut self, bytes: &[u8], fin: bool)
        requires
            old(self).wf(),
        ensures
            final(self).wf(),
            final(self).fed() === old(self).fed() + bytes@,
            final(self).buffered() === old(self).buffered() + bytes@,
            final(self).served() === old(self).served(),
            final(self).fin_seen() == (old(self).fin_seen() || fin),
            final(self).receiver_closed() == (old(self).receiver_closed() || fin),
            final(self).id_spec() == old(self).id_spec(),
    {
        self.buffer.push(bytes);
        if fin {
            self.fin_seen = true;
            self.receiver_closed = true;
        }
        proof {
            self.fed@ = self.fed@ + bytes@;
            assert(final(self).served() + final(self).buffered() === final(self).fed());
        }
    }

    /// Takes delivery of a close notification: the receiving side shuts.
    pub fn accept_close(&mut self)
        requires
            old(self).wf(),
        ensures
            final(self).wf(),
            final(self).receiver_closed(),
            final(self).fed() === old(self).fed(),
            final(self).buffered() === old(self).buffered(),
            final(self).served() === old(self).served(),
            final(self).fin_seen() == old(self).fin_seen(),
            final(self).id_spec() == old(self).id_spec(),
    {
        self.receiver_closed = true;
    }

    /// Serves up to `want` bytes: exactly the oldest not-yet-served delivered
    /// bytes, as many as are buffered and fit.
    pub fn read(&mut self, want: usize) -> (r: Vec<u8>)
        requires
            old(self).wf(),
        ensures
            final(self).wf(),
            r@ === old(self).buffered().take(
                min(want as int, old(self).buffered().len() as int),
            ),
            final(self).buffered() === old(self).buffered().skip(
                min(want as int, old(self).buffered().len() as int),
            ),
            final(self).served() === old(self).served() + r@,
            final(self).fed() === old(self).fed(),
            final(self).fin_seen() == old(self).fin_seen(),
            final(self).receiver_closed() == old(self).receiver_closed(),
            final(self).id_spec() == old(self).id_spec(),
    {
        let r = self.buffer.take(want);
        proof {
            self.served@ = self.served@ + r@;
            assert(final(self).served() + final(self).buffered() === final(self).fed());
        }
        r
    }

    /// How one poll reacts to a receive event. A data item joins the buffer
    /// and the longest buffered prefix that fits is served; a close ends the
    /// receiving side with an empty read this round; an error is surfaced; a
    /// closed-and-drained queue is a broken pipe.
    pub fn poll_read_event(&mut self, event: RecvEvent, want: usize) -> (r: ReadOutcome)
        requires
            old(self).wf(),
        ensures
            final(self).wf(),
            final(self).id_spec() == old(self).id_spec(),
            poll_read_outcome(*old(self), *final(self), event, want, r),
    {
        match event {
            RecvEvent::Item(item) => match item {
                Ok(Message::Data { stream_id: _, bytes, fin }) => {
                    self.accept_data(bytes.as_slice(), fin);
                    let out = self.read(want);
                    ReadOutcome::Read(out)
                },
                Ok(Message::Close(_)) => {
                    self.accept_close();
                    ReadOutcome::Read(Vec::new())
                },
                Err(e) => ReadOutcome::Failed(e),
            },
            RecvEvent::ChannelClosed => ReadOutcome::BrokenPipe,
        }
    }

    /// The step a read poll takes before consulting the queue: serve what is
    /// buffered; once the receiving side is shut — a FIN or a close arrived —
    /// and the buffer has drained, this poll and every later one surfaces a
    /// broken pipe; otherwise the caller must wait for the next queue item.
    pub fn poll_read_ready(&mut self, want: usize) -> (r: ReadStep)
        requires
            old(self).wf(),
        ensures
            final(self).wf(),
            final(self).id_spec() == old(self).id_spec(),
            read_ready_outcome(*old(self), *final(self), want, r),
    {
        if self.buffer.len() > 0 && want > 0 {
            let out = self.read(want);
            ReadStep::Serve(out)
        } else if self.receiver_closed && self.buffer.len() == 0 {
            ReadStep::BrokenPipe
        } else {
            ReadStep::AwaitEvent
        }
    }
}

/// What one read poll does, by receive event: the data case grows the
/// delivered bytes by exactly the chunk, serves the longest buffered prefix
/// that fits, and a FIN shuts the receiving side; the close case shuts the
/// receiving side with an empty read and changes nothing else; an error item
/// surfaces as that error and changes nothing; a closed-and-drained queue is
/// a broken pipe and changes nothing.
pub open spec fn poll_read_outcome(
    pre: ReadHalf,
    post: ReadHalf,
    event: RecvEvent,
    want: usize,
    r: ReadOutcome,
) -> bool {
    match event {
        RecvEvent::Item(Result::Ok(Message::Data { stream_id, bytes, fin })) => {
            &&& post.fed() === pre.fed() + bytes@
            &&& post.fin_seen() == (pre.fin_seen() || fin)
            &&& post.receiver_closed() == (pre.receiver_closed() || fin)
            &&& (r matches ReadOutcome::Read(out) && out@ === (pre.buffered()
                + bytes@).take(
                vstd::math::min(want as int, (pre.buffered() + bytes@).len() as int),
            ) && post.served() === pre.served() + out@ && post.buffered() === (pre.buffered()
                + bytes@).skip(
                vstd::math::min(want as int, (pre.buffered() + bytes@).len() as int),
            ))
        },
        RecvEvent::Item(Result::Ok(Message::Close(_))) => {
            &&& post.receiver_closed()
            &&& post.fed() === pre.fed()
            &&& post.served() === pre.served()
            &&& post.buffered() === pre.buffered()
            &&& post.fin_seen() == pre.fin_seen()
            &&& (r matches ReadOutcome::Read(out) && out@ === Seq::<u8>::empty())
        },
        RecvEvent::Item(Result::Err(e)) => r matches ReadOutcome::Failed(e2) && e2 == e
            && post == pre,
        RecvEvent::ChannelClosed => r is BrokenPipe && post == pre,
    }
}

/// The read decision when no new queue item is at hand: buffered bytes are
/// served first; a shut and drained receiving side is at its end; otherwise
/// the caller must wait for the next queue item.
pub enum ReadStep {
    /// The oldest buffered bytes, as many as fit; never empty.
    Serve(Vec<u8>),
    /// The receiving side is shut and everything delivered has been served:
    /// this read, and every later one, is a broken pipe.
    BrokenPipe,
    /// Nothing is buffered and the stream is still open: consult the
    /// per-stream queue.
    AwaitEvent,
}

/// What the no-event read step does: with bytes buffered it serves the
/// longest prefix that fits and nothing else changes; with the buffer
/// drained, a shut receiving side is a broken pipe and an open one waits —
/// either way the state stays put.
pub open spec fn read_ready_outcome(
    pre: ReadHalf,
    post: ReadHalf,
    want: usize,
    r: ReadStep,
) -> bool {
    if pre.buffered().len() > 0 && want > 0 {
        &&& (r matches ReadStep::Serve(out) && out@ === pre.buffered().take(
            vstd::math::min(want as int, pre.buffered().len() as int),
        ) && post.served() === pre.served() + out@ && post.buffered()
            === pre.buffered().skip(
            vstd::math::min(want as int, pre.buffered().len() as int),
        ))
        &&& post.fed() === pre.fed()
        &&& post.fin_seen() == pre.fin_seen()
        &&& post.receiver_closed() == pre.receiver_closed()
    } else if pre.receiver_closed() && pre.buffered().len() == 0 {
        r is BrokenPipe && post == pre
    } else {
        r is AwaitEvent && post == pre
    }
}

/// The first error among queued receive items, if any.
pub open spec fn first_error(events: Seq<Result<Message, Error>>) -> Option<Error>
    decreases events.len(),
{
    if events.len() == 0 {
        None
    } else {
        match events[0] {
            Result::Err(e) => Some(e),
            Result::Ok(_) => first_error(events.drop_first()),
        }
    }
}

/// The bytes the queued data items up to the first error carry, in order.
pub open spec fn data_bytes_of(events: Seq<Result<Message, Error>>) -> Seq<u8>
    decreases events.len(),
{
    if events.len() == 0 {
        Seq::empty()
    } else {
        match events[0] {
            Result::Ok(Message::Data { bytes, .. }) => bytes@ + data_bytes_of(
                events.drop_first(),
            ),
            Result::Ok(Message::Close(_)) => data_bytes_of(events.drop_first()),
            Result::Err(_) => Seq::empty(),
        }
    }
}

/// Whether a data item up to the first error carries a FIN.
pub open spec fn fin_in(events: Seq<Result<Message, Error>>) -> bool
    decreases events.len(),
{
    if events.len() == 0 {
        false
    } else {
        match events[0] {
            Result::Ok(Message::Data { fin, .. }) => fin || fin_in(events.drop_first()),
            Result::Ok(Message::Close(_)) => fin_in(events.drop_first()),
            Result::Err(_) => false,
        }
    }
}

impl ReadHalf {
    /// Drains the items already queued for this stream — appending every
    /// data chunk, in order, to the read-ahead buffer, a FIN closing the
    /// receiving side — and stops at the first error.
    fn ingest(&mut self, events: Vec<Result<Message, Error>>) -> (r: Result<(), Error>)
        requires
            old(self).wf(),
        ensures
            final(self).wf(),
            final(self).id_spec() == old(self).id_spec(),
            final(self).fed() === old(self).fed() + data_bytes_of(events@),
            final(self).buffered() === old(self).buffered() + data_bytes_of(events@),
            final(self).served() === old(self).served(),
            final(self).fin_seen() == (old(self).fin_seen() || fin_in(events@)),
            final(self).receiver_closed() == (old(self).receiver_closed() || fin_in(
                events@,
            )),
            r === match first_error(events@) {
                Some(e) => Result::<(), Error>::Err(e),
                None => Result::<(), Error>::Ok(()),
            },
        decreases events@.len(),
    {
        let mut evs = events;
        if evs.len() == 0 {
            proof {
                assert(self.fed() =~= self.fed() + data_bytes_of(evs@));
                assert(self.buffered() =~= self.buffered() + data_bytes_of(evs@));
            }
            Ok(())
        } else {
            let ev = evs.remove(0);
            proof {
                assert(evs@ =~= events@.drop_first());
            }
            match ev {
                Ok(Message::Data { stream_id: _, bytes, fin }) => {
                    self.accept_data(bytes.as_slice(), fin);
                    let r = self.ingest(evs);
                    proof {
                        assert(self.fed() =~= old(self).fed() + data_bytes_of(events@));
                        assert(self.buffered() =~= old(self).buffered() + data_bytes_of(
                            events@,
                        ));
                    }
                    r
                },
                Ok(Message::Close(_)) => self.ingest(evs),
                Err(e) => {
                    proof {
                        assert(self.fed() =~= old(self).fed() + data_bytes_of(events@));
                        assert(self.buffered() =~= old(self).buffered() + data_bytes_of(
                            events@,
                        ));
                    }
                    Err(e)
                },
            }
        }
    }

    /// A non-blocking read: drains what the driver has queued for this
    /// stream, then serves up to `want` of the oldest unserved bytes. An
    /// error among the queued items surfaces instead; data drained before it
    /// stays buffered.
    pub fn try_read(&mut self, events: Vec<Result<Message, Error>>, want: usize) -> (r:
        Result<Vec<u8>, Error>)
        requires
            old(self).wf(),
        ensures
            final(self).wf(),
            final(self).id_spec() == old(self).id_spec(),
            final(self).fed() === old(self).fed() + data_bytes_of(events@),
            final(self).fin_seen() == (old(self).fin_seen() || fin_in(events@)),
            final(self).receiver_closed() == (old(self).receiver_closed() || fin_in(
                events@,
            )),
            match first_error(events@) {
                Some(e) => r === Result::<Vec<u8>, Error>::Err(e) && final(self).served()
                    === old(self).served(),
                None => r matches Result::Ok(out) && out@ === (old(self).buffered()
                    + data_bytes_of(events@)).take(
                    min(want as int, (old(self).buffered() + data_bytes_of(events@)).len() as int),
                ) && final(self).served() === old(self).served() + out@,
            },
    {
        match self.ingest(events) {
            Ok(()) => Ok(self.read(want)),
            Err(e) => Err(e),
        }
    }
}

/// The writeable surface: a write is turned into the message to enqueue on
/// the connection's outbound queue, and the full length is reported.
pub trait TryWrite {
    spec fn tw_id(&self) -> u64;

    fn try_write(&mut self, bytes: Vec<u8>) -> (r: (Message, usize))
        ensures
            r.0 == (Message::Data { stream_id: old(self).tw_id(), bytes, fin: false }),
            r.1 == bytes.len(),
            final(self).tw_id() == old(self).tw_id(),
    ;
}

impl TryWrite for BidiStream {
    open spec fn tw_id(&self) -> u64 {
        self.write.id_spec()
    }

    fn try_write(&mut self, bytes: Vec<u8>) -> (r: (Message, usize)) {
        self.write.poll_write(bytes)
    }
}

impl TryWrite for UniStream<Writeable> {
    open spec fn tw_id(&self) -> u64 {
        self.write.id_spec()
    }

    fn try_write(&mut self, bytes: Vec<u8>) -> (r: (Message, usize)) {
        self.write.poll_write(bytes)
    }
}

impl BidiStream {
    /// A non-blocking read over the items the driver has queued.
    pub fn try_read(&mut self, events: Vec<Result<Message, Error>>, want: usize) -> (r:
        Result<Vec<u8>, Error>)
        requires
            old(self).wf(),
        ensures
            final(self).wf(),
            final(self).id_spec() == old(self).id_spec(),
            final(self).write == old(self).write,
            final(self).read.fed() === old(self).read.fed() + data_bytes_of(events@),
            final(self).read.fin_seen() == (old(self).read.fin_seen() || fin_in(events@)),
            final(self).read.receiver_closed() == (old(self).read.receiver_closed()
                || fin_in(events@)),
            match first_error(events@) {
                Some(e) => r === Result::<Vec<u8>, Error>::Err(e) && final(self).read.served()
                    === old(self).read.served(),
                None => r matches Result::Ok(out) && out@ === (old(self).read.buffered()
                    + data_bytes_of(events@)).take(
                    min(
                        want as int,
                        (old(self).read.buffered() + data_bytes_of(events@)).len() as int,
                    ),
                ) && final(self).read.served() === old(self).read.served() + out@,
            },
    {
        self.read.try_read(events, want)
    }
}

/// What the caller has been served is always a prefix of what the driver
/// delivered: a reader observes exactly the delivered bytes, in order.
pub proof fn lemma_served_is_fed_prefix(r: ReadHalf)
    requires
        r.wf(),
    ensures
        r.served() === r.fed().take(r.served().len() as int),
{
    assert(r.served() =~= r.fed().take(r.served().len() as int));
}

/// The bytes of a sequence of writes, in write order.
pub open spec fn concat_all(writes: Seq<Seq<u8>>) -> Seq<u8>
    decreases writes.len(),
{
    if writes.len() == 0 {
        Seq::empty()
    } else {
        concat_all(writes.drop_last()) + writes.last()
    }
}

/// One more write appends its bytes: delivering a writer's chunks one by one
/// grows the delivered sequence exactly as the writes grow.
pub proof fn lemma_concat_all_push(writes: Seq<Seq<u8>>, w: Seq<u8>)
    ensures
        concat_all(writes.push(w)) === concat_all(writes) + w,
{
    assert(writes.push(w).drop_last() =~= writes);
    assert(writes.push(w).last() === w);
}

/// A reader on the peer observes exactly the writer's bytes, in order: once
/// the per-stream deliveries amount to the writes' bytes — which
/// `poll_write` (a write's message carries exactly its bytes), the driver's
/// outbound planning (the engine is handed exactly the message's bytes) and
/// `accept_data` (a delivery appends exactly its chunk) guarantee chunk by
/// chunk — everything the reader has served is a prefix of those bytes, and
/// served and buffered together are exactly those bytes.
pub proof fn lemma_reader_observes_writes(r: ReadHalf, writes: Seq<Seq<u8>>)
    requires
        r.wf(),
        r.fed() === concat_all(writes),
    ensures
        r.served() + r.buffered() === concat_all(writes),
        r.served() === concat_all(writes).take(r.served().len() as int),
{
    lemma_served_is_fed_prefix(r);
}

/// The writeable half of a stream: turns user writes into outbound queue
/// messages. `written` records every byte handed over.
pub struct WriteHalf {
    id: u64,
    shutdown_sent: bool,
    written: Ghost<Seq<u8>>,
}

impl WriteHalf {
    pub closed spec fn id_spec(self) -> u64 {
        self.id
    }

    /// Every byte the user has written, in order.
    pub closed spec fn written(self) -> Seq<u8> {
        self.written@
    }

    /// A close has already been enqueued for this stream.
    pub closed spec fn shutdown_sent(self) -> bool {
        self.shutdown_sent
    }

    pub fn new(id: u64) -> (r: WriteHalf)
        ensures
            r.id_spec() == id,
            r.written() === Seq::<u8>::empty(),
            !r.shutdown_sent(),
    {
        WriteHalf { id, shutdown_sent: false, written: Ghost(Seq::empty()) }
    }

    pub fn id(&self) -> (r: u64)
        ensures
            r == self.id_spec(),
    {
        self.id
    }

    /// One write: the bytes go out as a single data message without FIN, and
    /// the reported count is the full length — backpressure is deferred to
    /// the driver's stashing step.
    pub fn poll_write(&mut self, bytes: Vec<u8>) -> (r: (Message, usize))
        ensures
            r.0 == (Message::Data { stream_id: old(self).id_spec(), bytes, fin: false }),
            r.1 == bytes.len(),
            final(self).written() === old(self).written() + bytes@,
            final(self).id_spec() == old(self).id_spec(),
            final(self).shutdown_sent() == old(self).shutdown_sent(),
    {
        let n = bytes.len();
        proof {
            self.written@ = self.written@ + bytes@;
        }
        (Message::Data { stream_id: self.id, bytes, fin: false }, n)
    }

    /// A flush has nothing to do: written bytes are already in the outbound
    /// queue, so it is ready at once.
    pub fn poll_flush(&self) {
    }

    /// One shutdown: the first call enqueues a close for this stream; every
    /// repeated call is ready and enqueues nothing more.
    pub fn poll_shutdown(&mut self) -> (r: Option<Message>)
        ensures
            final(self).shutdown_sent(),
            final(self).id_spec() == old(self).id_spec(),
            final(self).written() === old(self).written(),
            r == if old(self).shutdown_sent() {
                Option::<Message>::None
            } else {
                Option::Some(Message::Close(old(self).id_spec()))
            },
    {
        if self.shutdown_sent {
            None
        } else {
            self.shutdown_sent = true;
            Some(Message::Close(self.id))
        }
    }
}

/// The driver's view of a newly observed stream, neutral to direction until
/// classified.
pub struct UncheckedQuicStream {
    pub id: u64,
}

/// A bidirectional stream handle: both halves on one id.
pub struct BidiStream {
    pub read: ReadHalf,
    pub write: WriteHalf,
}

impl BidiStream {
    pub open spec fn wf(self) -> bool {
        &&& self.read.wf()
        &&& self.read.id_spec() == self.write.id_spec()
    }

    pub open spec fn id_spec(self) -> u64 {
        self.read.id_spec()
    }

    pub fn new(id: u64) -> (r: BidiStream)
        ensures
            r.wf(),
            r.id_spec() == id,
            r.read.fed() === Seq::<u8>::empty(),
            r.write.written() === Seq::<u8>::empty(),
            !r.write.shutdown_sent(),
    {
        BidiStream { read: ReadHalf::new(id), write: WriteHalf::new(id) }
    }

    pub fn id(&self) -> (r: u64)
        ensures
            r == self.id_spec(),
    {
        self.read.id()
    }

    pub fn poll_read(&mut self, event: RecvEvent, want: usize) -> (r: ReadOutcome)
        requires
            old(self).wf(),
        ensures
            final(self).wf(),
            final(self).id_spec() == old(self).id_spec(),
            final(self).write == old(self).write,
            poll_read_outcome(old(self).read, final(self).read, event, want, r),
    {
        self.read.poll_read_event(event, want)
    }

    /// The read step taken before consulting the queue; see
    /// [`ReadHalf::poll_read_ready`].
    pub fn poll_read_ready(&mut self, want: usize) -> (r: ReadStep)
        requires
            old(self).wf(),
        ensures
            final(self).wf(),
            final(self).id_spec() == old(self).id_spec(),
            final(self).write == old(self).write,
            read_ready_outcome(old(self).read, final(self).read, want, r),
    {
        self.read.poll_read_ready(want)
    }

    pub fn poll_write(&mut self, bytes: Vec<u8>) -> (r: (Message, usize))
        requires
            old(self).wf(),
        ensures
            final(self).wf(),
            r.0 == (Message::Data { stream_id: old(self).id_spec(), bytes, fin: false }),
            r.1 == bytes.len(),
            final(self).write.written() === old(self).write.written() + bytes@,
            final(self).write.shutdown_sent() == old(self).write.shutdown_sent(),
            final(self).id_spec() == old(self).id_spec(),
            final(self).read == old(self).read,
    {
        self.write.poll_write(bytes)
    }

    pub fn poll_shutdown(&mut self) -> (r: Option<Message>)
        requires
            old(self).wf(),
        ensures
            final(self).wf(),
            final(self).write.shutdown_sent(),
            final(self).read == old(self).read,
            r == if old(self).write.shutdown_sent() {
                Option::<Message>::None
            } else {
                Option::Some(Message::Close(old(self).id_spec()))
            },
    {
        self.write.poll_shutdown()
    }
}

/// A unidirectional stream handle; the mode parameter selects which half the
/// public surface exposes.
pub struct UniStream<M: UniMode> {
    pub read: ReadHalf,
    pub write: WriteHalf,
    pub mode: core::marker::PhantomData<M>,
}

impl<M: UniMode> UniStream<M> {
    pub open spec fn wf(self) -> bool {
        &&& self.read.wf()
        &&& self.read.id_spec() == self.write.id_spec()
    }

    pub open spec fn id_spec(self) -> u64 {
        self.read.id_spec()
    }

    pub fn new(id: u64) -> (r: UniStream<M>)
        ensures
            r.wf(),
            r.id_spec() == id,
            r.read.fed() === Seq::<u8>::empty(),
            r.write.written() === Seq::<u8>::empty(),
            !r.write.shutdown_sent(),
    {
        UniStream {
            read: ReadHalf::new(id),
            write: WriteHalf::new(id),
            mode: core::marker::PhantomData,
        }
    }

    pub fn id(&self) -> (r: u64)
        ensures
            r == self.id_spec(),
    {
        self.read.id()
    }
}

impl UniStream<Readable> {
    pub fn poll_read(&mut self, event: RecvEvent, want: usize) -> (r: ReadOutcome)
        requires
            old(self).wf(),
        ensures
            final(self).wf(),
            final(self).id_spec() == old(self).id_spec(),
            final(self).write == old(self).write,
            poll_read_outcome(old(self).read, final(self).read, event, want, r),
    {
        self.read.poll_read_event(event, want)
    }

    /// The read step taken before consulting the queue; see
    /// [`ReadHalf::poll_read_ready`].
    pub fn poll_read_ready(&mut self, want: usize) -> (r: ReadStep)
        requires
            old(self).wf(),
        ensures
            final(self).wf(),
            final(self).id_spec() == old(self).id_spec(),
            final(self).write == old(self).write,
            read_ready_outcome(old(self).read, final(self).read, want, r),
    {
        self.read.poll_read_ready(want)
    }
}

impl UniStream<Writeable> {
    /// A flush has nothing to do: written bytes are already in the outbound
    /// queue, so it is ready at once.
    pub fn poll_flush(&self) {
    }

    pub fn poll_write(&mut self, bytes: Vec<u8>) -> (r: (Message, usize))
        requires
            old(self).wf(),
        ensures
            final(self).wf(),
            r.0 == (Message::Data { stream_id: old(self).id_spec(), bytes, fin: false }),
            r.1 == bytes.len(),
            final(self).write.written() === old(self).write.written() + bytes@,
            final(self).write.shutdown_sent() == old(self).write.shutdown_sent(),
            final(self).id_spec() == old(self).id_spec(),
            final(self).read == old(self).read,
    {
        self.write.poll_write(bytes)
    }

    pub fn poll_shutdown(&mut self) -> (r: Option<Message>)
        requires
            old(self).wf(),
        ensures
            final(self).wf(),
            final(self).write.shutdown_sent(),
            final(self).read == old(self).read,
            r == if old(self).write.shutdown_sent() {
                Option::<Message>::None
            } else {
                Option::Some(Message::Close(old(self).id_spec()))
            },
    {
        self.write.poll_shutdown()
    }
}

} // verus!
