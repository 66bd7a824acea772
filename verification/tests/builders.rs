use rfb_audio::engine::eof_outcome;
use rfb_audio::engine::initial_state;
use rfb_audio::engine::Outcome;
use rfb_audio::engine::ProtoError;
use rfb_audio::engine::State;
use rfb_audio::messages::client_version_message;
use rfb_audio::messages::enable_capture_message;
use rfb_audio::messages::sample_format_message;
use rfb_audio::messages::set_encodings_message;
use rfb_audio::wire::read_be16;
use rfb_audio::wire::read_be32;
use rfb_audio::wire::write_be32;

#[test]
fn client_version_literal() {
    assert_eq!(client_version_message(), b"RFB 003.008\n".to_vec());
}

#[test]
fn set_encodings_declares_qemu_audio() {
    // Type 2, padding, count 1, then -259 as signed 32-bit big-endian.
    assert_eq!(
        set_encodings_message(),
        vec![2, 0, 0, 1, 0xff, 0xff, 0xfe, 0xfd]
    );
    assert_eq!(i32::from_be_bytes([0xff, 0xff, 0xfe, 0xfd]), -259);
}

#[test]
fn sample_format_fixed_parameters() {
    assert_eq!(
        sample_format_message(3, 2, 48000),
        vec![255, 1, 0, 2, 3, 2, 0, 0, 0xbb, 0x80]
    );
}

#[test]
fn enable_capture_bytes() {
    assert_eq!(enable_capture_message(), vec![255, 1, 0, 0]);
}

#[test]
fn big_endian_decoding() {
    assert_eq!(read_be16(0x0a, 0x00), 0x0a00);
    assert_eq!(read_be16(0, 2), 2);
    assert_eq!(read_be32(0x01, 0x02, 0x03, 0x04), 0x01020304);
    assert_eq!(read_be32(0, 0, 0, 0), 0);
    assert_eq!(read_be32(0xff, 0xff, 0xff, 0xff), u32::MAX);
}

#[test]
fn big_endian_encoding() {
    assert_eq!(write_be32(48000), vec![0, 0, 0xbb, 0x80]);
    assert_eq!(write_be32(0), vec![0, 0, 0, 0]);
    assert_eq!(write_be32(u32::MAX), vec![0xff, 0xff, 0xff, 0xff]);
}

#[test]
fn initial_state_awaits_version() {
    assert_eq!(initial_state(), State::AwaitVersion);
}

#[test]
fn eof_is_graceful_only_at_message_boundary() {
    assert_eq!(eof_outcome(&State::AwaitMessageType), Outcome::Closed);
    assert_eq!(
        eof_outcome(&State::AwaitVersion),
        Outcome::Failed(ProtoError::IoFailure)
    );
    assert_eq!(
        eof_outcome(&State::AwaitAudioData { length: 4 }),
        Outcome::Failed(ProtoError::IoFailure)
    );
}
