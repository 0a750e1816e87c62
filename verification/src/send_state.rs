//! The send-staging state machine: the cursors and flush flag that drain
//! engine output to the wire.
//!
//! The staging buffer itself lives with the connection; this holds the two
//! cursors over it and the flush flag, and the decisions of one `poll_send`
//! step: what to ask of the engine or the socket next, and how each answer
//! moves the cursors.

use vstd::prelude::*;

verus! {

/// Cursors over the send staging buffer. Bytes at `pos..end` are staged and
/// not yet handed to the socket; `end..cap` is free for the engine to fill.
#[derive(Debug, Clone, Copy, PartialEq, Eq, Structural)]
pub struct SendState {
    pub pos: usize,
    pub end: usize,
    pub cap: usize,
    pub flush: bool,
}

/// What the driver should do next in a send round.
#[derive(Debug, Clone, Copy, PartialEq, Eq, Structural)]
pub enum SendCall {
    /// Write the staged bytes at `from..to` to the socket.
    WriteSocket { from: usize, to: usize },
    /// Ask the engine to fill the free space at `from..to`.
    AskEngine { from: usize, to: usize },
}

/// The engine's or socket's answer to the previous call.
#[derive(Debug, Clone, Copy, PartialEq, Eq, Structural)]
pub enum SendEvent {
    /// The socket accepted `0` ..= `pending` staged bytes.
    SocketAccepted(usize),
    /// The engine staged `n` more bytes of packet data.
    EngineStaged(usize),
    /// The engine has nothing to send this round.
    EngineDone,
    /// The engine wants more room than `end..cap` offers.
    EngineBufferTooShort,
    /// Any other engine error, already mapped to its wire code.
    EngineFatal(u64),
}

/// How the send round continues after an event.
#[derive(Debug, Clone, Copy, PartialEq, Eq, Structural)]
pub enum SendOutcome {
    /// Keep going: consult `next_call` again.
    Continue,
    /// Nothing further to send this round.
    Ready,
    /// Close the engine with this wire code and the reason below, then
    /// surface an I/O failure.
    Fatal(u64),
}

/// The close reason handed to the engine on a fatal send error.
pub fn fatal_close_reason() -> (r: Vec<u8>)
    ensures
        r@ === seq![102u8, 97u8, 105u8, 108u8],
{
    let mut v: Vec<u8> = Vec::new();
    v.push(102);
    v.push(97);
    v.push(105);
    v.push(108);
    v
}

impl SendState {
    /// The cursors stay within the buffer.
    pub open spec fn wf(self) -> bool {
        self.pos <= self.end <= self.cap
    }

    /// Staged bytes not yet handed to the socket.
    pub open spec fn pending(self) -> int {
        self.end - self.pos
    }

    pub fn new(cap: usize) -> (r: SendState)
        ensures
            r.wf(),
            r.cap == cap,
            r.pos == 0,
            r.end == 0,
            !r.flush,
    {
        SendState { pos: 0, end: 0, cap, flush: false }
    }

    /// What to do next: with the flush flag set, push the staged bytes to
    /// the wire; otherwise offer the engine the free tail of the buffer.
    pub fn next_call(&self) -> (r: SendCall)
        requires
            self.wf(),
        ensures
            r == if self.flush {
                SendCall::WriteSocket { from: self.pos, to: self.end }
            } else {
                SendCall::AskEngine { from: self.end, to: self.cap }
            },
    {
        if self.flush {
            SendCall::WriteSocket { from: self.pos, to: self.end }
        } else {
            SendCall::AskEngine { from: self.end, to: self.cap }
        }
    }

    /// Forces the staged bytes to the wire before further staging: the
    /// driver does this after each successful engine write, so every staged
    /// packet goes out as a single datagram.
    pub fn force_flush(&mut self)
        requires
            old(self).wf(),
        ensures
            final(self).wf(),
            final(self).flush,
            final(self).pos == old(self).pos,
            final(self).end == old(self).end,
            final(self).cap == old(self).cap,
    {
        self.flush = true;
    }

    /// Moves the cursors by one answer:
    /// - socket accepted `k` bytes: the read cursor advances by `k`; once it
    ///   catches the write cursor both reset and the flush flag clears;
    /// - the engine staged `n` bytes: the write cursor advances by `n`, and
    ///   reaching one short of capacity forces a flush before further
    ///   staging;
    /// - the engine is done: the round is ready;
    /// - the buffer is too short for the engine: force a flush and retry;
    /// - anything else is fatal: the engine is to be closed with the mapped
    ///   wire code and the fixed reason.
    pub fn on_event(&mut self, ev: SendEvent) -> (r: SendOutcome)
        requires
            old(self).wf(),
            ev matches SendEvent::SocketAccepted(k) ==> old(self).flush && k <= old(
                self,
            ).pending(),
            ev matches SendEvent::EngineStaged(n) ==> !old(self).flush && n <= old(self).cap
                - old(self).end,
        ensures
            final(self).wf(),
            final(self).cap == old(self).cap,
            match ev {
                SendEvent::SocketAccepted(k) => {
                    &&& r == SendOutcome::Continue
                    &&& if old(self).pos + k == old(self).end {
                        final(self).pos == 0 && final(self).end == 0 && !final(self).flush
                    } else {
                        final(self).pos == old(self).pos + k && final(self).end == old(
                            self,
                        ).end && final(self).flush
                    }
                },
                SendEvent::EngineStaged(n) => {
                    &&& r == SendOutcome::Continue
                    &&& final(self).pos == old(self).pos
                    &&& final(self).end == old(self).end + n
                    &&& final(self).flush == (old(self).cap > 0 && old(self).end + n == old(
                        self,
                    ).cap - 1)
                },
                SendEvent::EngineDone => r == SendOutcome::Ready
                    && *final(self) == *old(self),
                SendEvent::EngineBufferTooShort => {
                    &&& r == SendOutcome::Continue
                    &&& final(self).flush
                    &&& final(self).pos == old(self).pos
                    &&& final(self).end == old(self).end
                },
                SendEvent::EngineFatal(code) => r == SendOutcome::Fatal(code)
                    && *final(self) == *old(self),
            },
    {
        match ev {
            SendEvent::SocketAccepted(k) => {
                self.pos = self.pos + k;
                if self.pos == self.end {
                    self.pos = 0;
                    self.end = 0;
                    self.flush = false;
                }
                SendOutcome::Continue
            },
            SendEvent::EngineStaged(n) => {
                self.end = self.end + n;
                self.flush = self.cap > 0 && self.end == self.cap - 1;
                SendOutcome::Continue
            },
            SendEvent::EngineDone => SendOutcome::Ready,
            SendEvent::EngineBufferTooShort => {
                self.force_flush();
                SendOutcome::Continue
            },
            SendEvent::EngineFatal(code) => SendOutcome::Fatal(code),
        }
    }
}

} // verus!
