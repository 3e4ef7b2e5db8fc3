use vstd::prelude::*;
use crate::error::Error;
use crate::message::{Magic, Message, Payload, Version, verack_message, version_message};
use crate::negotiate::{min_version, negotiate_version};
use crate::outcome::HandshakeResult;
use crate::step::{Completion, IoAction};

verus! {

/// Progress marker of the responder. Each variant holds exactly what its
/// step needs: the local announcement not yet sent, or the message still
/// to be written together with the remote version already captured.
/// There is no terminal variant — finishing consumes the machine.
#[derive(Debug, PartialEq, Eq, Structural)]
pub enum AcceptHandshakeState {
    /// Reading the remote version announcement; the local `Version` is
    /// held here until the reply is built.
    ReceiveVersion { local_version: Version },
    /// Writing the local version announcement.
    SendVersion { message: Message, remote: Version },
    /// Writing the acknowledgment.
    SendVerack { message: Message, remote: Version },
}

/// The state machine for the side that accepted the connection: receive
/// version, send version, send acknowledgment, done.
#[derive(Debug, PartialEq, Eq, Structural)]
pub struct AcceptHandshake {
    pub magic: Magic,
    pub version: u32,
    pub state: AcceptHandshakeState,
}

/// What one advance of the responder yields when it does not fail: the
/// machine carried to its next step, or the final result.
#[derive(Debug, PartialEq, Eq, Structural)]
pub enum AcceptStep {
    Pending(AcceptHandshake),
    Finished(HandshakeResult),
}

/// The machine `accept_handshake` constructs: waiting for the remote
/// version announcement, with the local `Version` held for the reply and
/// the local numeric version remembered for negotiation.
pub open spec fn spec_accept_handshake(magic: Magic, version: Version) -> AcceptHandshake {
    AcceptHandshake {
        magic,
        version: version.version,
        state: AcceptHandshakeState::ReceiveVersion { local_version: version },
    }
}

/// Constructs the responder machine. Its first pending operation is the
/// inbound read of the remote version announcement; the caller keeps
/// ownership of the stream and performs each pending operation against
/// it.
pub fn accept_handshake(magic: Magic, version: Version) -> (h: AcceptHandshake)
    ensures
        h == spec_accept_handshake(magic, version),
{
    AcceptHandshake {
        magic,
        version: version.version(),
        state: AcceptHandshakeState::ReceiveVersion { local_version: version },
    }
}

impl AcceptHandshake {
    /// The one I/O operation this machine is waiting on.
    pub open spec fn spec_pending(self) -> IoAction {
        match self.state {
            AcceptHandshakeState::ReceiveVersion { .. } => IoAction::Receive,
            AcceptHandshakeState::SendVersion { message, .. } => IoAction::Send(message),
            AcceptHandshakeState::SendVerack { message, .. } => IoAction::Send(message),
        }
    }

    /// The one I/O operation this machine is waiting on; the caller
    /// performs it against the stream and reports the outcome to
    /// `advance`.
    pub fn pending(&self) -> (a: IoAction)
        ensures
            a == self.spec_pending(),
    {
        match self.state {
            AcceptHandshakeState::ReceiveVersion { .. } => IoAction::Receive,
            AcceptHandshakeState::SendVersion { message, .. } => IoAction::Send(message),
            AcceptHandshakeState::SendVerack { message, .. } => IoAction::Send(message),
        }
    }

    /// Whether a reported completion is the kind the pending operation
    /// can produce: `Received` for a pending read, `Sent` for a pending
    /// write, `Failed` for either.
    pub open spec fn accepts(self, c: Completion) -> bool {
        match c {
            Completion::Sent => !(self.state is ReceiveVersion),
            Completion::Received(_) => self.state is ReceiveVersion,
            Completion::Failed => true,
        }
    }

    /// The full transition relation of the responder, one completed
    /// operation at a time.
    pub open spec fn spec_advance(self, c: Completion) -> Result<AcceptStep, Error> {
        match c {
            Completion::Failed => Err(Error::TransportFailure),
            Completion::Received(m) => match self.state {
                AcceptHandshakeState::ReceiveVersion { local_version } => match m.payload {
                    Payload::Version(remote) => Ok(AcceptStep::Pending(AcceptHandshake {
                        magic: self.magic,
                        version: self.version,
                        state: AcceptHandshakeState::SendVersion {
                            message: Message {
                                magic: self.magic,
                                payload: Payload::Version(local_version),
                            },
                            remote,
                        },
                    })),
                    _ => Err(Error::HandshakeFailed),
                },
                _ => Err(Error::HandshakeFailed),
            },
            Completion::Sent => match self.state {
                AcceptHandshakeState::SendVersion { remote, .. } => Ok(AcceptStep::Pending(
                    AcceptHandshake {
                        magic: self.magic,
                        version: self.version,
                        state: AcceptHandshakeState::SendVerack {
                            message: Message { magic: self.magic, payload: Payload::Verack },
                            remote,
                        },
                    },
                )),
                AcceptHandshakeState::SendVerack { remote, .. } => Ok(AcceptStep::Finished(
                    HandshakeResult {
                        version: remote,
                        negotiated_version: min_version(self.version, remote.version),
                    },
                )),
                AcceptHandshakeState::ReceiveVersion { .. } => Err(Error::HandshakeFailed),
            },
        }
    }

    /// Reports how the pending operation ended and advances one step.
    ///
    /// A remote message that is not a version announcement fails with
    /// `HandshakeFailed`; a failed operation fails with
    /// `TransportFailure`; completed writes carry the machine forward.
    /// The acknowledgment's write completes the machine, yielding the
    /// remote version and the negotiated version. Taking `self` by value
    /// consumes the machine, so a machine that finished or failed no
    /// longer exists to be advanced again.
    pub fn advance(self, c: Completion) -> (r: Result<AcceptStep, Error>)
        requires
            self.accepts(c),
        ensures
            r == self.spec_advance(c),
    {
        match c {
            Completion::Failed => Err(Error::TransportFailure),
            Completion::Received(m) => match self.state {
                AcceptHandshakeState::ReceiveVersion { local_version } => match m.payload {
                    Payload::Version(remote) => {
                        let reply = version_message(self.magic, local_version);
                        Ok(AcceptStep::Pending(AcceptHandshake {
                            magic: self.magic,
                            version: self.version,
                            state: AcceptHandshakeState::SendVersion { message: reply, remote },
                        }))
                    },
                    _ => Err(Error::HandshakeFailed),
                },
                _ => Err(Error::HandshakeFailed),
            },
            Completion::Sent => match self.state {
                AcceptHandshakeState::SendVersion { remote, .. } => {
                    let ack = verack_message(self.magic);
                    Ok(AcceptStep::Pending(AcceptHandshake {
                        magic: self.magic,
                        version: self.version,
                        state: AcceptHandshakeState::SendVerack { message: ack, remote },
                    }))
                },
                AcceptHandshakeState::SendVerack { remote, .. } => match negotiate_version(
                    self.version,
                    remote.version(),
                ) {
                    Ok(negotiated) => Ok(AcceptStep::Finished(HandshakeResult {
                        version: remote,
                        negotiated_version: negotiated,
                    })),
                    Err(e) => Err(e),
                },
                AcceptHandshakeState::ReceiveVersion { .. } => Err(Error::HandshakeFailed),
            },
        }
    }
}

} // verus!
