use vstd::prelude::*;
use crate::message::Version;

verus! {

/// The outcome of a completed handshake: the remote peer's announcement
/// and the protocol version both sides will use. Produced exactly once,
/// at the final transition of either state machine.
#[derive(Clone, Copy, Debug, PartialEq, Eq, Structural)]
pub struct HandshakeResult {
    /// The `Version` the remote peer announced.
    pub version: Version,
    /// The version negotiated from the two advertised versions.
    pub negotiated_version: u32,
}

} // verus!
