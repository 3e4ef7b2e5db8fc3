use handshake::error::Error;
use handshake::initiator::{handshake, Handshake, InitiatorStep};
use handshake::message::{verack_message, version_message, Magic, Message, Payload, Version};
use handshake::negotiate::negotiate_version;
use handshake::outcome::HandshakeResult;
use handshake::responder::{accept_handshake, AcceptHandshake, AcceptStep};
use handshake::step::{Completion, IoAction};

fn magic() -> Magic {
    Magic { value: 0xD9B4BEF9 }
}

fn version(v: u32) -> Version {
    Version { version: v }
}

/// Drives an initiator and a responder against each other over an
/// in-memory duplex message pipe, advancing whichever side is ready,
/// until both have finished or failed.
fn run_loopback(
    initiator_magic: Magic,
    responder_magic: Magic,
    local_initiator: Version,
    local_responder: Version,
) -> (Result<HandshakeResult, Error>, Result<HandshakeResult, Error>) {
    let mut to_responder: Vec<Message> = Vec::new();
    let mut to_initiator: Vec<Message> = Vec::new();
    let mut initiator_machine: Option<Handshake> = Some(handshake(initiator_magic, local_initiator));
    let mut responder_machine: Option<AcceptHandshake> =
        Some(accept_handshake(responder_magic, local_responder));
    let mut initiator_outcome: Option<Result<HandshakeResult, Error>> = None;
    let mut responder_outcome: Option<Result<HandshakeResult, Error>> = None;

    while initiator_outcome.is_none() || responder_outcome.is_none() {
        let mut progressed = false;

        if let Some(machine) = initiator_machine.take() {
            match machine.pending() {
                IoAction::Send(message) => {
                    to_responder.push(message);
                    progressed = true;
                    match machine.advance(Completion::Sent) {
                        Ok(InitiatorStep::Pending(next)) => initiator_machine = Some(next),
                        Ok(InitiatorStep::Finished(result)) => initiator_outcome = Some(Ok(result)),
                        Err(e) => initiator_outcome = Some(Err(e)),
                    }
                }
                IoAction::Receive => {
                    if to_initiator.is_empty() {
                        initiator_machine = Some(machine);
                    } else {
                        let message = to_initiator.remove(0);
                        progressed = true;
                        match machine.advance(Completion::Received(message)) {
                            Ok(InitiatorStep::Pending(next)) => initiator_machine = Some(next),
                            Ok(InitiatorStep::Finished(result)) => {
                                initiator_outcome = Some(Ok(result))
                            }
                            Err(e) => initiator_outcome = Some(Err(e)),
                        }
                    }
                }
            }
        }

        if let Some(machine) = responder_machine.take() {
            match machine.pending() {
                IoAction::Send(message) => {
                    to_initiator.push(message);
                    progressed = true;
                    match machine.advance(Completion::Sent) {
                        Ok(AcceptStep::Pending(next)) => responder_machine = Some(next),
                        Ok(AcceptStep::Finished(result)) => responder_outcome = Some(Ok(result)),
                        Err(e) => responder_outcome = Some(Err(e)),
                    }
                }
                IoAction::Receive => {
                    if to_responder.is_empty() {
                        responder_machine = Some(machine);
                    } else {
                        let message = to_responder.remove(0);
                        progressed = true;
                        match machine.advance(Completion::Received(message)) {
                            Ok(AcceptStep::Pending(next)) => responder_machine = Some(next),
                            Ok(AcceptStep::Finished(result)) => responder_outcome = Some(Ok(result)),
                            Err(e) => responder_outcome = Some(Err(e)),
                        }
                    }
                }
            }
        }

        assert!(progressed, "loopback run deadlocked");
    }

    (
        initiator_outcome.expect("initiator never finished"),
        responder_outcome.expect("responder never finished"),
    )
}

#[test]
fn negotiate_picks_smaller_version() {
    assert_eq!(negotiate_version(70015, 70012), Ok(70012));
    assert_eq!(negotiate_version(70012, 70015), Ok(70012));
    assert_eq!(negotiate_version(70001, 70001), Ok(70001));
    assert_eq!(negotiate_version(0, u32::MAX), Ok(0));
    assert_eq!(negotiate_version(u32::MAX, u32::MAX), Ok(u32::MAX));
}

#[test]
fn loopback_handshake_converges() {
    let (initiator_result, responder_result) =
        run_loopback(magic(), magic(), version(70015), version(70012));
    let initiator_result = initiator_result.expect("initiator failed");
    let responder_result = responder_result.expect("responder failed");
    assert_eq!(initiator_result.negotiated_version, 70012);
    assert_eq!(responder_result.negotiated_version, 70012);
    assert_eq!(initiator_result.version, version(70012));
    assert_eq!(responder_result.version, version(70015));
}

#[test]
fn loopback_handshake_equal_versions() {
    let (initiator_result, responder_result) =
        run_loopback(magic(), magic(), version(70001), version(70001));
    assert_eq!(initiator_result.unwrap().negotiated_version, 70001);
    assert_eq!(responder_result.unwrap().negotiated_version, 70001);
}

#[test]
fn initiator_message_order_is_send_then_receive() {
    let machine = handshake(magic(), version(70015));
    assert_eq!(
        machine.pending(),
        IoAction::Send(version_message(magic(), version(70015)))
    );
    let machine = match machine.advance(Completion::Sent) {
        Ok(InitiatorStep::Pending(next)) => next,
        other => panic!("unexpected step: {:?}", other),
    };
    assert_eq!(machine.pending(), IoAction::Receive);
}

#[test]
fn responder_replies_with_version_then_verack() {
    let machine = accept_handshake(magic(), version(70012));
    assert_eq!(machine.pending(), IoAction::Receive);
    let machine = match machine.advance(Completion::Received(version_message(magic(), version(70015))))
    {
        Ok(AcceptStep::Pending(next)) => next,
        other => panic!("unexpected step: {:?}", other),
    };
    assert_eq!(
        machine.pending(),
        IoAction::Send(version_message(magic(), version(70012)))
    );
    let machine = match machine.advance(Completion::Sent) {
        Ok(AcceptStep::Pending(next)) => next,
        other => panic!("unexpected step: {:?}", other),
    };
    assert_eq!(machine.pending(), IoAction::Send(verack_message(magic())));
    match machine.advance(Completion::Sent) {
        Ok(AcceptStep::Finished(result)) => {
            assert_eq!(result.version, version(70015));
            assert_eq!(result.negotiated_version, 70012);
        }
        other => panic!("unexpected step: {:?}", other),
    }
}

#[test]
fn initiator_rejects_non_version_first_message() {
    let machine = handshake(magic(), version(70015));
    let machine = match machine.advance(Completion::Sent) {
        Ok(InitiatorStep::Pending(next)) => next,
        other => panic!("unexpected step: {:?}", other),
    };
    let verack_first = machine.advance(Completion::Received(verack_message(magic())));
    assert_eq!(verack_first, Err(Error::HandshakeFailed));

    let machine = handshake(magic(), version(70015));
    let machine = match machine.advance(Completion::Sent) {
        Ok(InitiatorStep::Pending(next)) => next,
        other => panic!("unexpected step: {:?}", other),
    };
    let other_first = machine.advance(Completion::Received(Message {
        magic: magic(),
        payload: Payload::Other,
    }));
    assert_eq!(other_first, Err(Error::HandshakeFailed));
}

#[test]
fn initiator_fails_at_verack_step_not_version_step() {
    let machine = handshake(magic(), version(70015));
    let machine = match machine.advance(Completion::Sent) {
        Ok(InitiatorStep::Pending(next)) => next,
        other => panic!("unexpected step: {:?}", other),
    };
    // The well-formed version announcement passes the version step.
    let machine = match machine.advance(Completion::Received(version_message(magic(), version(70012))))
    {
        Ok(InitiatorStep::Pending(next)) => next,
        other => panic!("failed at the version step: {:?}", other),
    };
    // The replacement for the acknowledgment fails the verack step.
    let step = machine.advance(Completion::Received(Message {
        magic: magic(),
        payload: Payload::Other,
    }));
    assert_eq!(step, Err(Error::HandshakeFailed));
}

#[test]
fn responder_rejects_non_version_first_message() {
    let machine = accept_handshake(magic(), version(70012));
    let step = machine.advance(Completion::Received(verack_message(magic())));
    assert_eq!(step, Err(Error::HandshakeFailed));
}

#[test]
fn transport_failure_propagates_unchanged() {
    let machine = handshake(magic(), version(70015));
    assert_eq!(machine.advance(Completion::Failed), Err(Error::TransportFailure));

    let machine = accept_handshake(magic(), version(70012));
    assert_eq!(machine.advance(Completion::Failed), Err(Error::TransportFailure));

    // Mid-run failure: the read of the acknowledgment fails.
    let machine = handshake(magic(), version(70015));
    let machine = match machine.advance(Completion::Sent) {
        Ok(InitiatorStep::Pending(next)) => next,
        other => panic!("unexpected step: {:?}", other),
    };
    let machine = match machine.advance(Completion::Received(version_message(magic(), version(70012))))
    {
        Ok(InitiatorStep::Pending(next)) => next,
        other => panic!("unexpected step: {:?}", other),
    };
    assert_eq!(machine.advance(Completion::Failed), Err(Error::TransportFailure));
}

#[test]
fn dropped_machine_leaves_whole_messages() {
    // An initiator hands its announcement to the transport as one whole
    // framed message, then is dropped before completing. No result was
    // produced, and the message already in flight is still a complete
    // one that a responder can consume.
    let machine = handshake(magic(), version(70015));
    let announcement = match machine.pending() {
        IoAction::Send(message) => message,
        other => panic!("unexpected action: {:?}", other),
    };
    drop(machine);
    assert_eq!(announcement, version_message(magic(), version(70015)));
    let responder = accept_handshake(magic(), version(70012));
    match responder.advance(Completion::Received(announcement)) {
        Ok(AcceptStep::Pending(_)) => {}
        other => panic!("unexpected step: {:?}", other),
    }
}

#[test]
fn builders_stamp_magic_and_payload() {
    let announcement = version_message(magic(), version(70015));
    assert_eq!(announcement.magic, magic());
    assert_eq!(announcement.payload, Payload::Version(version(70015)));

    let ack = verack_message(magic());
    assert_eq!(ack.magic, magic());
    assert_eq!(ack.payload, Payload::Verack);
}
