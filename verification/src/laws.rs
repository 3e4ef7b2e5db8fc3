use vstd::prelude::*;
use crate::error::Error;
use crate::initiator::{Handshake, InitiatorStep, spec_handshake};
use crate::message::{Magic, Message, Version};
use crate::negotiate::min_version;
use crate::outcome::HandshakeResult;
use crate::responder::{AcceptHandshake, AcceptStep, spec_accept_handshake};
use crate::step::Completion;

verus! {

/// Law: an initiator and a responder driven against each other over a
/// loopback pipe, with the same network tag on both sides, converge.
/// Whenever one side waits on a read, the other has the matching write
/// pending; every step succeeds; both machines finish; each side's
/// observed remote `Version` is exactly the `Version` the other side was
/// constructed with; and both sides negotiate the same version, the
/// smaller of the two advertised ones.
pub proof fn lemma_handshake_symmetry(magic: Magic, local_initiator: Version, local_responder: Version)
    ensures
        ({
            let i0 = spec_handshake(magic, local_initiator);
            let r0 = spec_accept_handshake(magic, local_responder);
            // The initiator's announcement crosses the pipe.
            let announcement_i = i0.spec_pending()->Send_0;
            let step_i1 = i0.spec_advance(Completion::Sent);
            let step_r1 = r0.spec_advance(Completion::Received(announcement_i));
            let i1 = step_i1->Ok_0->Pending_0;
            let r1 = step_r1->Ok_0->Pending_0;
            // The responder's announcement crosses the pipe.
            let announcement_r = r1.spec_pending()->Send_0;
            let step_r2 = r1.spec_advance(Completion::Sent);
            let step_i2 = i1.spec_advance(Completion::Received(announcement_r));
            let r2 = step_r2->Ok_0->Pending_0;
            let i2 = step_i2->Ok_0->Pending_0;
            // The responder's acknowledgment crosses the pipe.
            let ack = r2.spec_pending()->Send_0;
            let step_r3 = r2.spec_advance(Completion::Sent);
            let step_i3 = i2.spec_advance(Completion::Received(ack));
            // Each read faces the matching pending write.
            &&& i0.spec_pending() is Send && r0.spec_pending() is Receive
            &&& step_i1 is Ok && step_i1->Ok_0 is Pending
            &&& step_r1 is Ok && step_r1->Ok_0 is Pending
            &&& i1.spec_pending() is Receive && r1.spec_pending() is Send
            &&& step_i2 is Ok && step_i2->Ok_0 is Pending
            &&& step_r2 is Ok && step_r2->Ok_0 is Pending
            &&& i2.spec_pending() is Receive && r2.spec_pending() is Send
            // Both machines finish, with mirrored results.
            &&& step_i3 == Ok::<InitiatorStep, Error>(InitiatorStep::Finished(HandshakeResult {
                version: local_responder,
                negotiated_version: min_version(local_initiator.version, local_responder.version),
            }))
            &&& step_r3 == Ok::<AcceptStep, Error>(AcceptStep::Finished(HandshakeResult {
                version: local_initiator,
                negotiated_version: min_version(local_responder.version, local_initiator.version),
            }))
            // The two sides agree on the negotiated version.
            &&& min_version(local_initiator.version, local_responder.version)
                == min_version(local_responder.version, local_initiator.version)
        }),
{
}

/// Law: if the first message the initiator receives is not a version
/// announcement, its handshake fails with `HandshakeFailed` and yields
/// no result.
pub proof fn lemma_initiator_rejects_non_version(h: Handshake, m: Message)
    requires
        h.state is ReceiveVersion,
        !(m.payload is Version),
    ensures
        h.spec_advance(Completion::Received(m)) == Err::<InitiatorStep, Error>(
            Error::HandshakeFailed,
        ),
{
}

/// Law: a version announcement can never fail the initiator's version
/// step; if the message after it is anything but an acknowledgment, the
/// failure comes exactly at the acknowledgment step.
pub proof fn lemma_initiator_fails_only_at_verack(h: Handshake, first: Message, second: Message)
    requires
        h.state is ReceiveVersion,
        first.payload is Version,
        !(second.payload is Verack),
    ensures
        ({
            let step = h.spec_advance(Completion::Received(first));
            &&& step is Ok
            &&& step->Ok_0 is Pending
            &&& step->Ok_0->Pending_0.spec_advance(Completion::Received(second))
                == Err::<InitiatorStep, Error>(Error::HandshakeFailed)
        }),
{
}

/// Law: if the first message the responder receives is not a version
/// announcement, its handshake fails with `HandshakeFailed` and yields
/// no result.
pub proof fn lemma_responder_rejects_non_version(h: AcceptHandshake, m: Message)
    requires
        h.state is ReceiveVersion,
        !(m.payload is Version),
    ensures
        h.spec_advance(Completion::Received(m)) == Err::<AcceptStep, Error>(Error::HandshakeFailed),
{
}

/// Law: the initiator produces a result only at its final transition —
/// when the acknowledgment arrives after the remote version has been
/// observed — and that result carries exactly the observed remote
/// version and the negotiated minimum.
pub proof fn lemma_initiator_result_only_at_final_step(h: Handshake, c: Completion)
    ensures
        h.spec_advance(c) matches Ok(InitiatorStep::Finished(result)) ==> {
            &&& h.state is ReceiveVerack
            &&& c matches Completion::Received(m) && m.payload is Verack
            &&& result == (HandshakeResult {
                version: h.state->ReceiveVerack_remote,
                negotiated_version: min_version(h.version, h.state->ReceiveVerack_remote.version),
            })
        },
{
}

/// Law: the responder produces a result only at its final transition —
/// when the write of its acknowledgment completes — and that result
/// carries exactly the observed remote version and the negotiated
/// minimum.
pub proof fn lemma_responder_result_only_at_final_step(h: AcceptHandshake, c: Completion)
    ensures
        h.spec_advance(c) matches Ok(AcceptStep::Finished(result)) ==> {
            &&& h.state is SendVerack
            &&& c is Sent
            &&& result == (HandshakeResult {
                version: h.state->SendVerack_remote,
                negotiated_version: min_version(h.version, h.state->SendVerack_remote.version),
            })
        },
{
}

} // verus!
