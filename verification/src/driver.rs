//! The per-connection driver: the stream multiplexer's decisions.
//!
//! After the handshake the driver owns the connection state. Each tick it
//! pumps the transport, drains the shared outbound message queue into engine
//! stream sends, funnels readable stream chunks to per-stream queues —
//! announcing a stream the first time it is observed — and ends once the
//! engine reports closed, broadcasting a close to every stream it knows.
//! The engine and socket calls happen at the host; every decision between
//! them is here.

use vstd::prelude::*;

use crate::connection::StreamMap;
use crate::stream::UncheckedQuicStream;
use crate::Message;

verus! {

/// One engine stream-send the driver asks for: a user write, or an
/// empty write with FIN for a local close.
#[derive(Debug, Clone, PartialEq, Eq)]
pub struct StreamSendCall {
    pub stream_id: u64,
    pub bytes: Vec<u8>,
    pub fin: bool,
}

/// Bytes the engine did not accept, retained until the stream turns
/// writable again.
#[derive(Debug, Clone, PartialEq, Eq)]
pub struct Stash {
    pub stream_id: u64,
    pub bytes: Vec<u8>,
    pub fin: bool,
}

/// The multiplexer's state between engine and socket calls.
pub struct DriverState {
    /// Streams with a live per-stream queue.
    pub streams: StreamMap,
    /// The retained remainder of the last partially accepted send, if any.
    /// While it exists the driver processes no further outbound messages.
    pub stash: Option<Stash>,
    /// The engine was observed closed; the task is ending.
    pub done: bool,
}

impl DriverState {
    pub open spec fn wf(self) -> bool {
        self.streams.wf()
    }

    pub fn new(streams: StreamMap) -> (r: DriverState)
        requires
            streams.wf(),
        ensures
            r.wf(),
            r.streams.view() === streams.view(),
            r.stash is None,
            !r.done,
    {
        DriverState { streams, stash: None, done: false }
    }

    /// Outbound messages are processed only while no stash is pending and
    /// the task is alive.
    pub fn outbound_ready(&self) -> (r: bool)
        ensures
            r == (self.stash is None && !self.done),
    {
        self.stash.is_none() && !self.done
    }

    /// Books the engine's answer to a stream send: a full acceptance clears
    /// the way, a partial one retains exactly the unsent tail (and the FIN)
    /// and halts outbound processing for this tick.
    pub fn on_stream_send_result(&mut self, call: StreamSendCall, accepted: usize)
        requires
            old(self).wf(),
            old(self).stash is None,
            accepted <= call.bytes.len(),
        ensures
            final(self).wf(),
            final(self).streams.view() === old(self).streams.view(),
            final(self).done == old(self).done,
            accepted == call.bytes.len() ==> final(self).stash is None,
            accepted < call.bytes.len() ==> (final(self).stash matches Some(st)
                && st.stream_id == call.stream_id && st.bytes@ === call.bytes@.skip(
                accepted as int,
            ) && st.fin == call.fin),
    {
        if accepted < call.bytes.len() {
            let mut rest: Vec<u8> = Vec::new();
            let mut i: usize = accepted;
            while i < call.bytes.len()
                invariant
                    accepted <= i <= call.bytes@.len(),
                    rest@ === call.bytes@.subrange(accepted as int, i as int),
                decreases call.bytes@.len() - i,
            {
                rest.push(call.bytes[i]);
                i = i + 1;
            }
            proof {
                assert(rest@ =~= call.bytes@.skip(accepted as int));
            }
            self.stash = Some(Stash { stream_id: call.stream_id, bytes: rest, fin: call.fin });
        }
    }

    /// Books the engine's answer to a stash flush: what it accepted leaves
    /// the stash, and a fully drained stash frees outbound processing.
    pub fn on_stash_flushed(&mut self, accepted: usize)
        requires
            old(self).wf(),
            old(self).stash matches Some(st) && accepted <= st.bytes.len(),
        ensures
            final(self).wf(),
            final(self).streams.view() === old(self).streams.view(),
            final(self).done == old(self).done,
            ({
                let st = old(self).stash->Some_0;
                if accepted == st.bytes.len() {
                    final(self).stash is None
                } else {
                    final(self).stash matches Some(st2) && st2.stream_id == st.stream_id
                        && st2.bytes@ === st.bytes@.skip(accepted as int) && st2.fin == st.fin
                }
            }),
    {
        let st = self.stash.take().unwrap();
        if accepted < st.bytes.len() {
            let mut rest: Vec<u8> = Vec::new();
            let mut i: usize = accepted;
            while i < st.bytes.len()
                invariant
                    accepted <= i <= st.bytes@.len(),
                    rest@ === st.bytes@.subrange(accepted as int, i as int),
                decreases st.bytes@.len() - i,
            {
                rest.push(st.bytes[i]);
                i = i + 1;
            }
            proof {
                assert(rest@ =~= st.bytes@.skip(accepted as int));
            }
            self.stash = Some(Stash { stream_id: st.stream_id, bytes: rest, fin: st.fin });
        }
    }

    /// Funnels one readable chunk: the first observation of a stream
    /// registers it and announces it to the incoming channel; every chunk
    /// becomes a data message for the per-stream queue.
    pub fn deliver_inbound(&mut self, id: u64, bytes: Vec<u8>, fin: bool) -> (r: (
        Option<UncheckedQuicStream>,
        Message,
    ))
        requires
            old(self).wf(),
        ensures
            final(self).wf(),
            final(self).stash == old(self).stash,
            final(self).done == old(self).done,
            r.1 == (Message::Data { stream_id: id, bytes, fin }),
            old(self).streams.view().contains(id) ==> r.0 is None && final(self).streams.view()
                === old(self).streams.view(),
            !old(self).streams.view().contains(id) ==> (r.0 matches Some(u) && u.id == id)
                && final(self).streams.view() === old(self).streams.view().push(id),
    {
        let announce = if self.streams.contains(id) {
            None
        } else {
            self.streams.insert(id);
            Some(UncheckedQuicStream { id })
        };
        (announce, Message::Data { stream_id: id, bytes, fin })
    }

    /// Forgets a stream whose handle went away: the next tick sends nothing
    /// more to it.
    pub fn drop_stream(&mut self, id: u64)
        requires
            old(self).wf(),
        ensures
            final(self).wf(),
            !final(self).streams.view().contains(id),
            forall|x: u64|
                x != id ==> final(self).streams.view().contains(x) == old(
                    self,
                ).streams.view().contains(x),
            final(self).stash == old(self).stash,
            final(self).done == old(self).done,
    {
        self.streams.remove(id);
    }

    /// The engine is closed: the task ends, after telling every registered
    /// stream, each exactly once, that its connection is gone.
    pub fn on_engine_closed(&mut self) -> (r: Vec<Message>)
        requires
            old(self).wf(),
        ensures
            final(self).wf(),
            final(self).done,
            final(self).streams.view() === old(self).streams.view(),
            r@.len() == old(self).streams.view().len(),
            forall|j: int|
                0 <= j < r@.len() ==> r@[j] == Message::Close(old(self).streams.view()[j]),
    {
        self.done = true;
        let ids = self.streams.all_ids();
        let mut out: Vec<Message> = Vec::new();
        let mut i: usize = 0;
        while i < ids.len()
            invariant
                i <= ids@.len(),
                ids@ === self.streams.view(),
                out@.len() == i,
                forall|j: int| 0 <= j < i ==> out@[j] == Message::Close(ids@[j]),
            decreases ids@.len() - i,
        {
            out.push(Message::Close(ids[i]));
            i = i + 1;
        }
        out
    }

    /// The stop condition of `should_stop`, as a predicate.
    pub open spec fn should_stop_spec(self, engine_closed: bool) -> bool {
        engine_closed || self.done
    }

    /// Whether the task ends this tick: it does exactly when the engine
    /// reports closed or a previous tick already observed that.
    pub fn should_stop(&self, engine_closed: bool) -> (r: bool)
        ensures
            r == self.should_stop_spec(engine_closed),
    {
        engine_closed || self.done
    }
}

/// Turns one outbound application message into the engine call it stands
/// for: a data message carries its bytes and FIN; a close is an empty send
/// with FIN.
pub fn plan_outbound(msg: Message) -> (r: StreamSendCall)
    ensures
        match msg {
            Message::Data { stream_id, bytes, fin } => r.stream_id == stream_id && r.bytes@
                === bytes@ && r.fin == fin,
            Message::Close(id) => r.stream_id == id && r.bytes@ === Seq::<u8>::empty()
                && r.fin,
        },
{
    match msg {
        Message::Data { stream_id, bytes, fin } => StreamSendCall { stream_id, bytes, fin },
        Message::Close(id) => StreamSendCall { stream_id: id, bytes: Vec::new(), fin: true },
    }
}

/// A close send that the engine refused is still announced locally: the
/// stream handle learns its stream is gone.
pub fn close_send_failure_notice(id: u64) -> (r: Message)
    ensures
        r == Message::Close(id),
{
    Message::Close(id)
}

/// Once the engine reports closed, the driver ends within one tick: the
/// tick that observes `is_closed` stops at once (`should_stop` holds
/// whenever its argument does), and after `on_engine_closed` has marked the
/// state done, every later tick stops whatever the engine then reports.
pub proof fn lemma_driver_stops_after_close(s: DriverState)
    requires
        s.done,
    ensures
        forall|engine_closed: bool| s.should_stop_spec(engine_closed),
{
}

} // verus!
