use vstd::prelude::*;

verus! {

/// Identifier of the network a message belongs to. The framing layer
/// rejects inbound messages whose tag differs from the expected one, so
/// every message seen here already carries the right tag; the handshake
/// only stamps it onto its outbound messages.
#[derive(Clone, Copy, Debug, PartialEq, Eq, Structural)]
pub struct Magic {
    pub value: u32,
}

/// A peer's advertised protocol capability. Only the numeric protocol
/// version matters to the handshake; further peer metadata travels with
/// the framing layer and is opaque here.
#[derive(Clone, Copy, Debug, PartialEq, Eq, Structural)]
pub struct Version {
    pub version: u32,
}

impl Version {
    /// The numeric protocol version this peer advertises.
    pub fn version(&self) -> (v: u32)
        ensures
            v == self.version,
    {
        self.version
    }
}

/// The payload kinds a handshake step can tell apart: the two handshake
/// messages, and the open set of application messages, all of which are
/// handshake-invalid and collapsed into `Other`.
#[derive(Clone, Copy, Debug, PartialEq, Eq, Structural)]
pub enum Payload {
    Version(Version),
    Verack,
    Other,
}

/// One framed protocol message: a network tag and a payload.
#[derive(Clone, Copy, Debug, PartialEq, Eq, Structural)]
pub struct Message {
    pub magic: Magic,
    pub payload: Payload,
}

/// Wraps a version announcement with the given network tag.
pub fn version_message(magic: Magic, version: Version) -> (m: Message)
    ensures
        m == (Message { magic, payload: Payload::Version(version) }),
{
    Message { magic, payload: Payload::Version(version) }
}

/// Wraps an empty acknowledgment with the given network tag.
pub fn verack_message(magic: Magic) -> (m: Message)
    ensures
        m == (Message { magic, payload: Payload::Verack }),
{
    Message { magic, payload: Payload::Verack }
}

} // verus!
