//! The engine's single retransmission deadline.
//!
//! The engine exposes one next-timeout; the timer models it as a single-shot
//! deadline that can be re-armed and cancelled. Instants are milliseconds on
//! the host's monotonic clock.

use vstd::prelude::*;

verus! {

/// At most one armed deadline per connection.
#[derive(Debug, Clone, Copy, PartialEq, Eq, Structural)]
pub enum Timer {
    Unset,
    Armed(u64),
}

impl Timer {
    pub open spec fn is_armed(self) -> bool {
        self is Armed
    }

    pub open spec fn deadline(self) -> u64 {
        self->Armed_0
    }

    /// The timer is ready at or after its deadline; a disarmed timer never
    /// fires.
    pub open spec fn fired(self, now: u64) -> bool {
        self is Armed && self.deadline() <= now
    }

    /// Arms the timer; on an already-armed timer the deadline is reset.
    pub fn arm(&mut self, deadline: u64)
        ensures
            *final(self) == Timer::Armed(deadline),
    {
        *self = Timer::Armed(deadline);
    }

    /// Cancels the deadline; never blocks.
    pub fn disarm(&mut self)
        ensures
            *final(self) == Timer::Unset,
    {
        *self = Timer::Unset;
    }

    /// Whether the deadline has passed. Polling does not consume the
    /// deadline: after expiry it stays ready until re-armed or disarmed.
    pub fn poll(&self, now: u64) -> (r: bool)
        ensures
            r == self.fired(now),
    {
        match self {
            Timer::Unset => false,
            Timer::Armed(deadline) => *deadline <= now,
        }
    }

    /// Applies the engine's requested next timeout, as the driver does after
    /// firing: `Some(d)` re-arms at `now + d` (saturating at the clock's
    /// end), `None` disarms.
    pub fn update(&mut self, now: u64, engine_timeout: Option<u64>)
        ensures
            *final(self) == match engine_timeout {
                Option::Some(d) => Timer::Armed(
                    if now + d <= u64::MAX {
                        (now + d) as u64
                    } else {
                        u64::MAX
                    },
                ),
                Option::None => Timer::Unset,
            },
    {
        match engine_timeout {
            Some(d) => {
                let deadline = if d <= u64::MAX - now {
                    now + d
                } else {
                    u64::MAX
                };
                self.arm(deadline);
            },
            None => self.disarm(),
        }
    }
}

/// Polling an expired timer is idempotent: it stays ready at every later
/// instant until it is re-armed or disarmed.
pub proof fn lemma_poll_after_expiry_idempotent(t: Timer, now: u64, later: u64)
    requires
        t.fired(now),
        now <= later,
    ensures
        t.fired(later),
{
}

} // verus!
