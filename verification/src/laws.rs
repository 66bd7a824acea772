//! Session-wide laws of the protocol engine, stated and proved over the
//! spec-level model of [`crate::engine`].

use vstd::prelude::*;
use crate::engine::init_state;
use crate::engine::needs;
use crate::engine::rank;
use crate::engine::session_model;
use crate::engine::step_model;
use crate::engine::ErrorModel;
use crate::engine::EventModel;
use crate::engine::FlowModel;
use crate::engine::OutcomeModel;
use crate::engine::State;
use crate::messages::client_version_spec;
use crate::messages::enable_capture_spec;
use crate::messages::handshake_writes_spec;
use crate::messages::sample_format_spec;
use crate::messages::set_encodings_spec;
use crate::wire::be32;

verus! {

/// The count of security types the server offers, read from its input byte.
pub open spec fn sec_count(input: Seq<u8>) -> int {
    input[12] as int
}

/// The security-type list the server offers.
pub open spec fn sec_types(input: Seq<u8>) -> Seq<u8> {
    input.subrange(13, 13 + sec_count(input))
}

/// Whether the 4-byte security result is the all-zero success value.
pub open spec fn result_zero(input: Seq<u8>) -> bool {
    let c = sec_count(input);
    &&& input[13 + c] == 0
    &&& input[14 + c] == 0
    &&& input[15 + c] == 0
    &&& input[16 + c] == 0
}

/// The length of the failure reason that follows a nonzero security result.
pub open spec fn reason_len(input: Seq<u8>) -> int {
    let c = sec_count(input);
    be32(input[17 + c], input[18 + c], input[19 + c], input[20 + c]) as int
}

/// The length of the desktop name inside the ServerInit block.
pub open spec fn name_len(input: Seq<u8>) -> int {
    let c = sec_count(input);
    be32(input[37 + c], input[38 + c], input[39 + c], input[40 + c]) as int
}

/// How many input bytes a complete successful handshake occupies: the
/// version, the type count, the type list, the security result, the fixed
/// ServerInit head, and the desktop name.
pub open spec fn handshake_len(input: Seq<u8>) -> int {
    41 + sec_count(input) + name_len(input)
}

/// The input begins with a complete successful handshake: a 12-byte version,
/// a security-type list that offers type 1, an all-zero security result, and
/// a full ServerInit block.
pub open spec fn handshake_ok(input: Seq<u8>) -> bool {
    &&& input.len() >= 13
    &&& input.len() >= 17 + sec_count(input)
    &&& sec_types(input).contains(1u8)
    &&& result_zero(input)
    &&& input.len() >= 41 + sec_count(input)
    &&& input.len() >= handshake_len(input)
}

/// The states of the message-dispatch loop, which the engine reaches once
/// the handshake is done and never leaves.
pub open spec fn in_message_loop(s: State) -> bool {
    match s {
        State::AwaitMessageType => true,
        State::AwaitUpdateHeader => true,
        State::AwaitRectangles { .. } => true,
        State::AwaitAudioHeader => true,
        State::AwaitAudioLength => true,
        State::AwaitAudioData { .. } => true,
        _ => false,
    }
}

/// After the handshake the client is silent: a session that starts anywhere
/// in the message loop never writes a byte to the server.
pub proof fn lemma_message_loop_writes_nothing(s: State, input: Seq<u8>)
    requires
        in_message_loop(s),
    ensures
        session_model(s, input).writes == Seq::<u8>::empty(),
    decreases input.len(), rank(s),
{
    let n = needs(s);
    if input.len() < n {
        assert(session_model(s, input).writes =~= Seq::<u8>::empty());
    } else {
        let m = step_model(s, input.take(n));
        match m.next {
            FlowModel::Done(_) => {
                assert(session_model(s, input).writes =~= Seq::<u8>::empty());
            },
            FlowModel::Continue(s2) => {
                assert(in_message_loop(s2));
                lemma_message_loop_writes_nothing(s2, input.skip(n));
                assert(session_model(s, input).writes =~= Seq::<u8>::empty());
            },
        }
    }
}

/// A complete successful handshake consumes exactly its own bytes and hands
/// the rest of the input to the message loop: the writes are exactly the
/// handshake write sequence followed by whatever the loop writes, the audio
/// output and the outcome are those of the loop.
pub proof fn lemma_handshake(input: Seq<u8>)
    requires
        handshake_ok(input),
    ensures
        ({
            let whole = session_model(init_state(), input);
            let tail = session_model(State::AwaitMessageType, input.skip(handshake_len(input)));
            &&& whole.writes == handshake_writes_spec() + tail.writes
            &&& whole.audio == tail.audio
            &&& whole.consumed == handshake_len(input) + tail.consumed
            &&& whole.outcome == tail.outcome
        }),
{
    let c = sec_count(input);
    let nl = name_len(input);
    let hl = handshake_len(input);
    let i1 = input.skip(12);
    let i2 = input.skip(13);
    let i3 = input.skip(13 + c);
    let i4 = input.skip(17 + c);
    let i5 = input.skip(41 + c);
    let i6 = input.skip(hl);
    assert(i1.skip(1) =~= i2);
    assert(i2.skip(c) =~= i3);
    assert(i3.skip(4) =~= i4);
    assert(i4.skip(24) =~= i5);
    assert(i5.skip(nl) =~= i6);

    let s2 = State::AwaitSecurityTypes { count: input[12] };
    let length = be32(input[37 + c], input[38 + c], input[39 + c], input[40 + c]);
    let s5 = State::AwaitDesktopName { length };

    let r6 = session_model(State::AwaitMessageType, i6);
    let r5 = session_model(s5, i5);
    let r4 = session_model(State::AwaitServerInit, i4);
    let r3 = session_model(State::AwaitSecurityResult, i3);
    let r2 = session_model(s2, i2);
    let r1 = session_model(State::AwaitSecurityCount, i1);
    let r0 = session_model(State::AwaitVersion, input);

    assert(i5.len() >= nl);
    assert(r5.writes == (set_encodings_spec() + sample_format_spec(3, 2, 48000)
        + enable_capture_spec()) + r6.writes && r5.audio == r6.audio && r5.consumed == nl
        + r6.consumed && r5.outcome == r6.outcome);

    assert(i4.take(24)[20] == input[37 + c] && i4.take(24)[21] == input[38 + c] && i4.take(24)[22]
        == input[39 + c] && i4.take(24)[23] == input[40 + c]);
    assert(step_model(State::AwaitServerInit, i4.take(24)).next == FlowModel::Continue(s5));
    assert(r4.writes == Seq::<u8>::empty() + r5.writes && r4.audio == r5.audio && r4.consumed == 24
        + r5.consumed && r4.outcome == r5.outcome);

    assert(i3.take(4)[0] == input[13 + c] && i3.take(4)[1] == input[14 + c] && i3.take(4)[2]
        == input[15 + c] && i3.take(4)[3] == input[16 + c]);
    assert(r3.writes == seq![1u8] + r4.writes && r3.audio == r4.audio && r3.consumed == 4
        + r4.consumed && r3.outcome == r4.outcome);

    assert(i2.take(c) =~= sec_types(input));
    assert(i2.take(c).contains(1u8));
    assert(r2.writes == seq![1u8] + r3.writes && r2.audio == r3.audio && r2.consumed == c
        + r3.consumed && r2.outcome == r3.outcome);

    assert(i1.take(1)[0] == input[12]);
    assert(step_model(State::AwaitSecurityCount, i1.take(1)).next == FlowModel::Continue(s2));
    assert(r1.writes == Seq::<u8>::empty() + r2.writes && r1.audio == r2.audio && r1.consumed == 1
        + r2.consumed && r1.outcome == r2.outcome);

    assert(r0.writes == client_version_spec() + r1.writes && r0.audio == r1.audio && r0.consumed
        == 12 + r1.consumed && r0.outcome == r1.outcome);

    assert(r0.writes =~= handshake_writes_spec() + r6.writes);
    assert(r0.audio =~= r6.audio);
}

/// For every input that begins with a complete successful handshake, the
/// client writes exactly the handshake write sequence — the version literal,
/// the selected type, the ClientInit flag, SetEncodings, the sample format,
/// the capture request, in that order — and not one byte more, whatever the
/// server sends afterwards.
pub proof fn lemma_handshake_writes_exact(input: Seq<u8>)
    requires
        handshake_ok(input),
    ensures
        session_model(init_state(), input).writes == handshake_writes_spec(),
{
    lemma_handshake(input);
    lemma_message_loop_writes_nothing(State::AwaitMessageType, input.skip(handshake_len(input)));
    assert(session_model(init_state(), input).writes =~= handshake_writes_spec());
}

/// If the server does not offer security type 1, the session fails with
/// `SecurityUnavailable`, and the only bytes ever written are the client
/// version: no write follows the failed negotiation.
pub proof fn lemma_security_unavailable(input: Seq<u8>)
    requires
        input.len() >= 13,
        input.len() >= 13 + sec_count(input),
        !sec_types(input).contains(1u8),
    ensures
        session_model(init_state(), input).outcome == OutcomeModel::Failed(
            ErrorModel::SecurityUnavailable,
        ),
        session_model(init_state(), input).writes == client_version_spec(),
{
    let c = sec_count(input);
    let i1 = input.skip(12);
    let i2 = input.skip(13);
    assert(i1.skip(1) =~= i2);

    let s2 = State::AwaitSecurityTypes { count: input[12] };
    let r2 = session_model(s2, i2);
    let r1 = session_model(State::AwaitSecurityCount, i1);
    let r0 = session_model(State::AwaitVersion, input);

    assert(i2.take(c) =~= sec_types(input));
    assert(!i2.take(c).contains(1u8));
    assert(r2.writes == Seq::<u8>::empty() && r2.outcome == OutcomeModel::Failed(
        ErrorModel::SecurityUnavailable,
    ));

    assert(i1.take(1)[0] == input[12]);
    assert(step_model(State::AwaitSecurityCount, i1.take(1)).next == FlowModel::Continue(s2));
    assert(r1.writes == Seq::<u8>::empty() + r2.writes && r1.outcome == r2.outcome);
    assert(r0.writes == client_version_spec() + r1.writes && r0.outcome == r1.outcome);
    assert(r0.writes =~= client_version_spec());
}

/// If the security result is nonzero, the engine reads the 4-byte reason
/// length and then exactly reason-length further bytes, fails with
/// `AuthenticationFailed` carrying exactly those bytes, and consumes nothing
/// beyond them, whatever else the server sends.
pub proof fn lemma_authentication_failed(input: Seq<u8>)
    requires
        input.len() >= 13,
        input.len() >= 17 + sec_count(input),
        sec_types(input).contains(1u8),
        !result_zero(input),
        input.len() >= 21 + sec_count(input) + reason_len(input),
    ensures
        ({
            let c = sec_count(input);
            let rl = reason_len(input);
            let whole = session_model(init_state(), input);
            &&& whole.outcome == OutcomeModel::Failed(
                ErrorModel::AuthenticationFailed(input.subrange(21 + c, 21 + c + rl)),
            )
            &&& whole.consumed == 21 + c + rl
            &&& whole.writes == client_version_spec() + seq![1u8]
        }),
{
    let c = sec_count(input);
    let rl = reason_len(input);
    let i1 = input.skip(12);
    let i2 = input.skip(13);
    let i3 = input.skip(13 + c);
    let i4 = input.skip(17 + c);
    let i5 = input.skip(21 + c);
    assert(i1.skip(1) =~= i2);
    assert(i2.skip(c) =~= i3);
    assert(i3.skip(4) =~= i4);
    assert(i4.skip(4) =~= i5);

    let s2 = State::AwaitSecurityTypes { count: input[12] };
    let length = be32(input[17 + c], input[18 + c], input[19 + c], input[20 + c]);
    let s5 = State::AwaitReason { length };

    let r5 = session_model(s5, i5);
    let r4 = session_model(State::AwaitReasonLength, i4);
    let r3 = session_model(State::AwaitSecurityResult, i3);
    let r2 = session_model(s2, i2);
    let r1 = session_model(State::AwaitSecurityCount, i1);
    let r0 = session_model(State::AwaitVersion, input);

    assert(i5.take(rl) =~= input.subrange(21 + c, 21 + c + rl));
    assert(r5.writes == Seq::<u8>::empty() && r5.consumed == rl && r5.outcome
        == OutcomeModel::Failed(
        ErrorModel::AuthenticationFailed(input.subrange(21 + c, 21 + c + rl)),
    ));

    assert(i4.take(4)[0] == input[17 + c] && i4.take(4)[1] == input[18 + c] && i4.take(4)[2]
        == input[19 + c] && i4.take(4)[3] == input[20 + c]);
    assert(step_model(State::AwaitReasonLength, i4.take(4)).next == FlowModel::Continue(s5));
    assert(r4.writes == Seq::<u8>::empty() + r5.writes && r4.consumed == 4 + r5.consumed
        && r4.outcome == r5.outcome);

    assert(i3.take(4)[0] == input[13 + c] && i3.take(4)[1] == input[14 + c] && i3.take(4)[2]
        == input[15 + c] && i3.take(4)[3] == input[16 + c]);
    assert(!(i3.take(4)[0] == 0 && i3.take(4)[1] == 0 && i3.take(4)[2] == 0 && i3.take(4)[3] == 0));
    assert(r3.writes == Seq::<u8>::empty() + r4.writes && r3.consumed == 4 + r4.consumed
        && r3.outcome == r4.outcome);

    assert(i2.take(c) =~= sec_types(input));
    assert(i2.take(c).contains(1u8));
    assert(r2.writes == seq![1u8] + r3.writes && r2.consumed == c + r3.consumed && r2.outcome
        == r3.outcome);

    assert(i1.take(1)[0] == input[12]);
    assert(step_model(State::AwaitSecurityCount, i1.take(1)).next == FlowModel::Continue(s2));
    assert(r1.writes == Seq::<u8>::empty() + r2.writes && r1.consumed == 1 + r2.consumed
        && r1.outcome == r2.outcome);

    assert(r0.writes == client_version_spec() + r1.writes && r0.consumed == 12 + r1.consumed
        && r0.outcome == r1.outcome);
    assert(r0.writes =~= client_version_spec() + seq![1u8]);
}

/// An audio-data message is forwarded byte-identically: from the message
/// loop, a message of operation 2 whose length field equals its payload size
/// appends exactly the payload — untransformed — to the audio sink, and the
/// rest of the session continues unchanged after it.
pub proof fn lemma_audio_data_round_trip(
    sub: u8,
    len_bytes: Seq<u8>,
    payload: Seq<u8>,
    rest: Seq<u8>,
)
    requires
        len_bytes.len() == 4,
        be32(len_bytes[0], len_bytes[1], len_bytes[2], len_bytes[3]) as int == payload.len(),
    ensures
        ({
            let input = seq![255u8, sub, 0u8, 2u8] + len_bytes + payload + rest;
            let whole = session_model(State::AwaitMessageType, input);
            let tail = session_model(State::AwaitMessageType, rest);
            &&& whole.audio == payload + tail.audio
            &&& whole.writes == tail.writes
            &&& whole.events == tail.events
            &&& whole.outcome == tail.outcome
        }),
{
    let input = seq![255u8, sub, 0u8, 2u8] + len_bytes + payload + rest;
    let pl = payload.len() as int;
    let i1 = input.skip(1);
    let i2 = input.skip(4);
    let i3 = input.skip(8);
    assert(i1.skip(3) =~= i2);
    assert(i2.skip(4) =~= i3);
    assert(i3.skip(pl) =~= rest);

    let length = be32(len_bytes[0], len_bytes[1], len_bytes[2], len_bytes[3]);
    let s3 = State::AwaitAudioData { length };

    let tail = session_model(State::AwaitMessageType, rest);
    let r3 = session_model(s3, i3);
    let r2 = session_model(State::AwaitAudioLength, i2);
    let r1 = session_model(State::AwaitAudioHeader, i1);
    let r0 = session_model(State::AwaitMessageType, input);

    assert(i3.take(pl) =~= payload);
    assert(r3.audio == payload + tail.audio && r3.writes == Seq::<u8>::empty() + tail.writes
        && r3.events == Seq::<EventModel>::empty() + tail.events && r3.outcome == tail.outcome);

    assert(i2.take(4)[0] == len_bytes[0] && i2.take(4)[1] == len_bytes[1] && i2.take(4)[2]
        == len_bytes[2] && i2.take(4)[3] == len_bytes[3]);
    assert(step_model(State::AwaitAudioLength, i2.take(4)).next == FlowModel::Continue(s3));
    assert(r2.audio == Seq::<u8>::empty() + r3.audio && r2.writes == Seq::<u8>::empty() + r3.writes
        && r2.events == Seq::<EventModel>::empty() + r3.events && r2.outcome == r3.outcome);

    assert(i1.take(3)[0] == sub && i1.take(3)[1] == 0u8 && i1.take(3)[2] == 2u8);
    assert(r1.audio == Seq::<u8>::empty() + r2.audio && r1.writes == Seq::<u8>::empty() + r2.writes
        && r1.events == Seq::<EventModel>::empty() + r2.events && r1.outcome == r2.outcome);

    assert(input.take(1)[0] == 255u8);
    assert(r0.audio == Seq::<u8>::empty() + r1.audio && r0.writes == Seq::<u8>::empty() + r1.writes
        && r0.events == Seq::<EventModel>::empty() + r1.events && r0.outcome == r1.outcome);

    assert(r0.audio =~= payload + tail.audio);
    assert(r0.writes =~= tail.writes);
    assert(r0.events =~= tail.events);
}

/// Each start or stop notification yields exactly one diagnostic event, in
/// message order: repeats are neither deduplicated nor coalesced, since every
/// further message prepends its own single event to the rest of the session.
pub proof fn lemma_audio_notification(sub: u8, started: bool, rest: Seq<u8>)
    ensures
        ({
            let op: u8 = if started {
                1u8
            } else {
                0u8
            };
            let evt = if started {
                EventModel::AudioStarted
            } else {
                EventModel::AudioStopped
            };
            let input = seq![255u8, sub, 0u8, op] + rest;
            let whole = session_model(State::AwaitMessageType, input);
            let tail = session_model(State::AwaitMessageType, rest);
            &&& whole.events == seq![evt] + tail.events
            &&& whole.audio == tail.audio
            &&& whole.writes == tail.writes
            &&& whole.outcome == tail.outcome
        }),
{
    let op: u8 = if started {
        1u8
    } else {
        0u8
    };
    let evt = if started {
        EventModel::AudioStarted
    } else {
        EventModel::AudioStopped
    };
    let input = seq![255u8, sub, 0u8, op] + rest;
    let i1 = input.skip(1);
    assert(i1.skip(3) =~= rest);

    let tail = session_model(State::AwaitMessageType, rest);
    let r1 = session_model(State::AwaitAudioHeader, i1);
    let r0 = session_model(State::AwaitMessageType, input);

    assert(i1.take(3)[0] == sub && i1.take(3)[1] == 0u8 && i1.take(3)[2] == op);
    assert(r1.events == seq![evt] + tail.events && r1.audio == Seq::<u8>::empty() + tail.audio
        && r1.writes == Seq::<u8>::empty() + tail.writes && r1.outcome == tail.outcome);

    assert(input.take(1)[0] == 255u8);
    assert(r0.events == Seq::<EventModel>::empty() + r1.events && r0.audio == Seq::<u8>::empty()
        + r1.audio && r0.writes == Seq::<u8>::empty() + r1.writes && r0.outcome == r1.outcome);

    assert(r0.events =~= seq![evt] + tail.events);
    assert(r0.audio =~= tail.audio);
    assert(r0.writes =~= tail.writes);
}

} // verus!
