use vstd::prelude::*;
use crate::message::Message;

verus! {

/// The single I/O operation a state machine has in flight. The caller
/// performs it against the stream it owns and reports back how it ended;
/// each machine has exactly one such operation pending at any instant.
#[derive(Clone, Copy, Debug, PartialEq, Eq, Structural)]
pub enum IoAction {
    /// Write this fully framed message to the stream.
    Send(Message),
    /// Read one fully framed message from the stream.
    Receive,
}

/// How the pending I/O operation ended. A caller whose operation has not
/// finished yet reports nothing and re-polls later: partial progress
/// never reaches the state machine.
#[derive(Clone, Copy, Debug, PartialEq, Eq, Structural)]
pub enum Completion {
    /// The pending `Send` finished.
    Sent,
    /// The pending `Receive` finished and decoded this message.
    Received(Message),
    /// The read or write primitive failed; the failure is propagated
    /// unchanged and terminates the machine.
    Failed,
}

} // verus!
