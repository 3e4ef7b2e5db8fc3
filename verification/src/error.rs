use vstd::prelude::*;

verus! {

/// Everything that can end a handshake without a result. All of these
/// are fatal: the machine is consumed and the caller should drop the
/// connection.
#[derive(Clone, Copy, Debug, PartialEq, Eq, Structural)]
pub enum Error {
    /// The underlying read or write primitive failed (I/O error, decode
    /// error, or network-tag mismatch detected by the framing layer).
    /// Surfaced unchanged; never retried here.
    TransportFailure,
    /// A received message's payload kind did not match what the protocol
    /// step expected.
    HandshakeFailed,
    /// Reserved for a future policy that rejects incompatible version
    /// pairs. The current negotiation accepts every pair, so nothing
    /// produces this variant; the gap is deliberate, not a guess at a
    /// compatibility rule.
    NegotiationFailure,
}

} // verus!
