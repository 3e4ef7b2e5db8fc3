use vstd::prelude::*;
use crate::error::Error;
use crate::message::{Magic, Message, Payload, Version, version_message};
use crate::negotiate::{min_version, negotiate_version};
use crate::outcome::HandshakeResult;
use crate::step::{Completion, IoAction};

verus! {

/// Progress marker of the initiator. Each variant holds exactly what its
/// step needs: the announcement still to be written, or the remote
/// version already captured. There is no terminal variant — finishing
/// consumes the machine — so a finished machine cannot be advanced.
#[derive(Debug, PartialEq, Eq, Structural)]
pub enum HandshakeState {
    /// Writing the local version announcement.
    SendVersion { message: Message },
    /// Reading the remote version announcement.
    ReceiveVersion,
    /// Reading the acknowledgment, with the remote version in hand.
    ReceiveVerack { remote: Version },
}

/// The state machine for the side that opened the connection: send
/// version, receive version, receive acknowledgment, done.
#[derive(Debug, PartialEq, Eq, Structural)]
pub struct Handshake {
    pub magic: Magic,
    pub version: u32,
    pub state: HandshakeState,
}

/// What one advance of the initiator yields when it does not fail: the
/// machine carried to its next step, or the final result. The stream,
/// owned by the caller throughout, is free again once `Finished` comes
/// back.
#[derive(Debug, PartialEq, Eq, Structural)]
pub enum InitiatorStep {
    Pending(Handshake),
    Finished(HandshakeResult),
}

/// The machine `handshake` constructs: poised to write the local version
/// announcement, remembering the local numeric version for negotiation.
pub open spec fn spec_handshake(magic: Magic, version: Version) -> Handshake {
    Handshake {
        magic,
        version: version.version,
        state: HandshakeState::SendVersion {
            message: Message { magic, payload: Payload::Version(version) },
        },
    }
}

/// Constructs the initiator machine. Its first pending operation is the
/// outbound version announcement; the caller keeps ownership of the
/// stream and performs each pending operation against it.
pub fn handshake(magic: Magic, version: Version) -> (h: Handshake)
    ensures
        h == spec_handshake(magic, version),
{
    let announcement = version_message(magic, version);
    Handshake {
        magic,
        version: version.version(),
        state: HandshakeState::SendVersion { message: announcement },
    }
}

impl Handshake {
    /// The one I/O operation this machine is waiting on.
    pub open spec fn spec_pending(self) -> IoAction {
        match self.state {
            HandshakeState::SendVersion { message } => IoAction::Send(message),
            HandshakeState::ReceiveVersion => IoAction::Receive,
            HandshakeState::ReceiveVerack { .. } => IoAction::Receive,
        }
    }

    /// The one I/O operation this machine is waiting on; the caller
    /// performs it against the stream and reports the outcome to
    /// `advance`.
    pub fn pending(&self) -> (a: IoAction)
        ensures
            a == self.spec_pending(),
    {
        match self.state {
            HandshakeState::SendVersion { message } => IoAction::Send(message),
            HandshakeState::ReceiveVersion => IoAction::Receive,
            HandshakeState::ReceiveVerack { .. } => IoAction::Receive,
        }
    }

    /// Whether a reported completion is the kind the pending operation
    /// can produce: `Sent` for a pending write, `Received` for a pending
    /// read, `Failed` for either.
    pub open spec fn accepts(self, c: Completion) -> bool {
        match c {
            Completion::Sent => self.state is SendVersion,
            Completion::Received(_) => !(self.state is SendVersion),
            Completion::Failed => true,
        }
    }

    /// The full transition relation of the initiator, one completed
    /// operation at a time.
    pub open spec fn spec_advance(self, c: Completion) -> Result<InitiatorStep, Error> {
        match c {
            Completion::Failed => Err(Error::TransportFailure),
            Completion::Sent => Ok(InitiatorStep::Pending(Handshake {
                magic: self.magic,
                version: self.version,
                state: HandshakeState::ReceiveVersion,
            })),
            Completion::Received(m) => match self.state {
                HandshakeState::ReceiveVersion => match m.payload {
                    Payload::Version(remote) => Ok(InitiatorStep::Pending(Handshake {
                        magic: self.magic,
                        version: self.version,
                        state: HandshakeState::ReceiveVerack { remote },
                    })),
                    _ => Err(Error::HandshakeFailed),
                },
                HandshakeState::ReceiveVerack { remote } => if m.payload is Verack {
                    Ok(InitiatorStep::Finished(HandshakeResult {
                        version: remote,
                        negotiated_version: min_version(self.version, remote.version),
                    }))
                } else {
                    Err(Error::HandshakeFailed)
                },
                HandshakeState::SendVersion { .. } => Err(Error::HandshakeFailed),
            },
        }
    }

    /// Reports how the pending operation ended and advances one step.
    ///
    /// A write that completed carries the machine to the next read; a
    /// read that produced the wrong payload kind fails with
    /// `HandshakeFailed`; a failed operation fails with
    /// `TransportFailure`. The acknowledgment completes the machine,
    /// yielding the remote version and the negotiated version. Taking
    /// `self` by value consumes the machine, so a machine that finished
    /// or failed no longer exists to be advanced again.
    pub fn advance(self, c: Completion) -> (r: Result<InitiatorStep, Error>)
        requires
            self.accepts(c),
        ensures
            r == self.spec_advance(c),
    {
        match c {
            Completion::Failed => Err(Error::TransportFailure),
            Completion::Sent => Ok(InitiatorStep::Pending(Handshake {
                magic: self.magic,
                version: self.version,
                state: HandshakeState::ReceiveVersion,
            })),
            Completion::Received(m) => match self.state {
                HandshakeState::ReceiveVersion => match m.payload {
                    Payload::Version(remote) => Ok(InitiatorStep::Pending(Handshake {
                        magic: self.magic,
                        version: self.version,
                        state: HandshakeState::ReceiveVerack { remote },
                    })),
                    _ => Err(Error::HandshakeFailed),
                },
                HandshakeState::ReceiveVerack { remote } => match m.payload {
                    Payload::Verack => match negotiate_version(self.version, remote.version()) {
                        Ok(negotiated) => Ok(InitiatorStep::Finished(HandshakeResult {
                            version: remote,
                            negotiated_version: negotiated,
                        })),
                        Err(e) => Err(e),
                    },
                    _ => Err(Error::HandshakeFailed),
                },
                HandshakeState::SendVersion { .. } => Err(Error::HandshakeFailed),
            },
        }
    }
}

} // verus!
