//! The handshake loop's decision: keep pumping the transport until the
//! engine reports established, and abort if it closes first.

use vstd::prelude::*;

verus! {

/// The verdict of one handshake poll, from the engine's two flags.
#[derive(Debug, Clone, Copy, PartialEq, Eq, Structural)]
pub enum HandshakeStep {
    /// The handshake is complete; hand the connection to the driver.
    Done,
    /// The engine closed before reaching established: an unexpected end.
    Failed,
    /// Keep driving send, receive and the timer.
    Continue,
}

/// One step of the handshaker: established wins, a close before established
/// fails, anything else keeps pumping.
pub fn handshake_step(is_established: bool, is_closed: bool) -> (r: HandshakeStep)
    ensures
        r == if is_established {
            HandshakeStep::Done
        } else if is_closed {
            HandshakeStep::Failed
        } else {
            HandshakeStep::Continue
        },
{
    if is_established {
        HandshakeStep::Done
    } else if is_closed {
        HandshakeStep::Failed
    } else {
        HandshakeStep::Continue
    }
}

} // verus!
