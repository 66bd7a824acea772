use rfb_audio::engine::run_session;
use rfb_audio::engine::step;
use rfb_audio::engine::DiagEvent;
use rfb_audio::engine::Flow;
use rfb_audio::engine::Outcome;
use rfb_audio::engine::ProtoError;
use rfb_audio::engine::State;

fn version_bytes() -> Vec<u8> {
    b"RFB 003.008\n".to_vec()
}

/// The full byte sequence the client is expected to write during a
/// successful handshake.
fn expected_handshake_writes() -> Vec<u8> {
    let mut w = version_bytes();
    w.push(1); // selected security type
    w.push(1); // ClientInit shared flag
    w.extend_from_slice(&[2, 0, 0, 1, 0xff, 0xff, 0xfe, 0xfd]); // SetEncodings
    w.extend_from_slice(&[255, 1, 0, 2, 3, 2, 0, 0, 0xbb, 0x80]); // sample format
    w.extend_from_slice(&[255, 1, 0, 0]); // enable capture
    w
}

/// A server input holding a complete successful handshake: version, the
/// given security types, an all-zero result, and a ServerInit block with the
/// given desktop name.
fn handshake_input(types: &[u8], name: &[u8]) -> Vec<u8> {
    let mut input = version_bytes();
    input.push(types.len() as u8);
    input.extend_from_slice(types);
    input.extend_from_slice(&[0, 0, 0, 0]); // security result: success
    input.extend_from_slice(&[0x0a, 0x00]); // width
    input.extend_from_slice(&[0x05, 0x00]); // height
    input.extend_from_slice(&[0u8; 16]); // pixel format
    input.extend_from_slice(&(name.len() as u32).to_be_bytes());
    input.extend_from_slice(name);
    input
}

#[test]
fn scenario_audio_data_end_to_end() {
    // Version, types [1], success, 0x0a00 x 0x0500 framebuffer with empty
    // name, then one audio-data message carrying DE AD BE EF.
    let mut input = handshake_input(&[1], &[]);
    input.extend_from_slice(&[255, 1, 0, 2, 0, 0, 0, 4, 0xde, 0xad, 0xbe, 0xef]);
    let r = run_session(&input);
    assert_eq!(r.audio, vec![0xde, 0xad, 0xbe, 0xef]);
    assert_eq!(r.writes, expected_handshake_writes());
    assert_eq!(r.outcome, Outcome::Closed);
    assert_eq!(r.consumed, input.len());
}

#[test]
fn scenario_security_type_unavailable() {
    // The server offers only type 2: the client fails before sending any
    // post-negotiation bytes.
    let mut input = version_bytes();
    input.extend_from_slice(&[1, 2]);
    let r = run_session(&input);
    assert_eq!(r.outcome, Outcome::Failed(ProtoError::SecurityUnavailable));
    assert_eq!(r.writes, version_bytes());
    assert_eq!(r.audio, Vec::<u8>::new());
}

#[test]
fn scenario_clean_close_at_message_loop() {
    // The server closes right at the top of the message loop: a graceful
    // shutdown.
    let input = handshake_input(&[1], &[]);
    let r = run_session(&input);
    assert_eq!(r.outcome, Outcome::Closed);
    assert_eq!(r.writes, expected_handshake_writes());
    assert_eq!(r.audio, Vec::<u8>::new());
    assert_eq!(r.consumed, input.len());
}

#[test]
fn scenario_unknown_message_type() {
    // An unknown message-type byte 7 fails the session; the bytes after it
    // are never read.
    let mut input = handshake_input(&[1], &[]);
    let handshake_len = input.len();
    input.extend_from_slice(&[7, 9, 9, 9]);
    let r = run_session(&input);
    assert_eq!(r.outcome, Outcome::Failed(ProtoError::UnknownMessageType(7)));
    assert_eq!(r.consumed, handshake_len + 1);
    assert_eq!(r.writes, expected_handshake_writes());
}

#[test]
fn authentication_failure_reads_exact_reason() {
    // A nonzero security result is followed by a length-prefixed reason; the
    // session fails with exactly those bytes and reads nothing further.
    let mut input = version_bytes();
    input.extend_from_slice(&[1, 1]); // one type: 1
    input.extend_from_slice(&[0, 0, 0, 1]); // nonzero result
    input.extend_from_slice(&[0, 0, 0, 6]);
    input.extend_from_slice(b"denied");
    let consumed_expected = input.len();
    input.extend_from_slice(&[9, 9, 9]); // never read
    let r = run_session(&input);
    assert_eq!(
        r.outcome,
        Outcome::Failed(ProtoError::AuthenticationFailed(b"denied".to_vec()))
    );
    assert_eq!(r.consumed, consumed_expected);
    let mut writes_expected = version_bytes();
    writes_expected.push(1);
    assert_eq!(r.writes, writes_expected);
}

#[test]
fn truncated_security_result_is_io_failure() {
    let mut input = version_bytes();
    input.extend_from_slice(&[1, 1]);
    input.extend_from_slice(&[0, 0]); // stream breaks inside the result
    let r = run_session(&input);
    assert_eq!(r.outcome, Outcome::Failed(ProtoError::IoFailure));
}

#[test]
fn empty_input_is_io_failure() {
    let input = Vec::new();
    let r = run_session(&input);
    assert_eq!(r.outcome, Outcome::Failed(ProtoError::IoFailure));
    assert_eq!(r.consumed, 0);
    assert_eq!(r.writes, Vec::<u8>::new());
}

#[test]
fn empty_security_type_list_is_unavailable() {
    let mut input = version_bytes();
    input.push(0); // zero offered types
    let r = run_session(&input);
    assert_eq!(r.outcome, Outcome::Failed(ProtoError::SecurityUnavailable));
    assert_eq!(r.writes, version_bytes());
}

#[test]
fn unknown_audio_operation_fails() {
    let mut input = handshake_input(&[1], &[]);
    input.extend_from_slice(&[255, 1, 0, 5]);
    let r = run_session(&input);
    assert_eq!(r.outcome, Outcome::Failed(ProtoError::UnknownAudioOperation(5)));
}

#[test]
fn framebuffer_rectangles_are_skipped() {
    // A framebuffer update with two rectangles is consumed without output;
    // the audio-data message after it still comes through.
    let mut input = handshake_input(&[1], &[]);
    input.extend_from_slice(&[0, 0, 0, 2]); // update: padding, count 2
    input.extend_from_slice(&[0u8; 24]); // two 12-byte rectangle headers
    input.extend_from_slice(&[255, 1, 0, 2, 0, 0, 0, 2, 0x12, 0x34]);
    let r = run_session(&input);
    assert_eq!(r.audio, vec![0x12, 0x34]);
    assert_eq!(r.outcome, Outcome::Closed);
    assert_eq!(r.writes, expected_handshake_writes());
}

#[test]
fn start_stop_notifications_one_event_each() {
    // Three notifications give exactly three events, in message order.
    let mut input = handshake_input(&[1], &[]);
    input.extend_from_slice(&[255, 0, 0, 1]);
    input.extend_from_slice(&[255, 0, 0, 0]);
    input.extend_from_slice(&[255, 0, 0, 1]);
    let r = run_session(&input);
    let audio_events: Vec<&DiagEvent> = r
        .events
        .iter()
        .filter(|e| matches!(e, DiagEvent::AudioStarted | DiagEvent::AudioStopped))
        .collect();
    assert_eq!(audio_events.len(), 3);
    assert_eq!(*audio_events[0], DiagEvent::AudioStarted);
    assert_eq!(*audio_events[1], DiagEvent::AudioStopped);
    assert_eq!(*audio_events[2], DiagEvent::AudioStarted);
    assert_eq!(r.outcome, Outcome::Closed);
}

#[test]
fn empty_audio_payload_forwards_nothing_and_continues() {
    let mut input = handshake_input(&[1], &[]);
    input.extend_from_slice(&[255, 1, 0, 2, 0, 0, 0, 0]); // zero-length chunk
    input.extend_from_slice(&[255, 1, 0, 2, 0, 0, 0, 1, 0x7f]);
    let r = run_session(&input);
    assert_eq!(r.audio, vec![0x7f]);
    assert_eq!(r.outcome, Outcome::Closed);
}

#[test]
fn handshake_diagnostic_events() {
    let input = handshake_input(&[5, 1], b"desk");
    let r = run_session(&input);
    assert_eq!(
        r.events,
        vec![
            DiagEvent::ServerVersion(version_bytes()),
            DiagEvent::SecurityTypes(vec![5, 1]),
            DiagEvent::SecuritySelected(1),
            DiagEvent::SecurityOk,
            DiagEvent::FramebufferSize(0x0a00, 0x0500),
            DiagEvent::DesktopName(b"desk".to_vec()),
        ]
    );
}

#[test]
fn step_version_writes_client_version() {
    let out = step(State::AwaitVersion, version_bytes());
    assert_eq!(out.writes, version_bytes());
    assert_eq!(out.audio, Vec::<u8>::new());
    assert_eq!(out.next, Flow::Continue(State::AwaitSecurityCount));
}

#[test]
fn needed_byte_counts() {
    assert_eq!(State::AwaitVersion.needed(), 12);
    assert_eq!(State::AwaitSecurityCount.needed(), 1);
    assert_eq!(State::AwaitSecurityTypes { count: 3 }.needed(), 3);
    assert_eq!(State::AwaitSecurityResult.needed(), 4);
    assert_eq!(State::AwaitServerInit.needed(), 24);
    assert_eq!(State::AwaitMessageType.needed(), 1);
    assert_eq!(State::AwaitUpdateHeader.needed(), 3);
    assert_eq!(State::AwaitRectangles { count: 2 }.needed(), 24);
    assert_eq!(State::AwaitAudioHeader.needed(), 3);
    assert_eq!(State::AwaitAudioLength.needed(), 4);
    assert_eq!(State::AwaitAudioData { length: 9 }.needed(), 9);
}
