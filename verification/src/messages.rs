//! The client-to-server messages of the handshake, as exact byte sequences.

use vstd::prelude::*;
use crate::wire::be32_bytes;
use crate::wire::write_be32;

verus! {

/// The fixed client protocol version literal, the ASCII bytes of
/// `RFB 003.008\n`.
pub open spec fn client_version_spec() -> Seq<u8> {
    seq![0x52u8, 0x46, 0x42, 0x20, 0x30, 0x30, 0x33, 0x2e, 0x30, 0x30, 0x38, 0x0a]
}

/// The SetEncodings message declaring exactly the QEMU Audio pseudo-encoding:
/// message type 2, one padding byte, a big-endian count of 1, and the
/// encoding value -259 as a signed 32-bit big-endian integer.
pub open spec fn set_encodings_spec() -> Seq<u8> {
    seq![2u8, 0, 0, 1, 0xff, 0xff, 0xfe, 0xfd]
}

/// The QEMU Audio client message that sets the sample format: message type
/// 255, submessage type 1, operation 2, then the sample format id, the
/// channel count, and the big-endian sample rate.
pub open spec fn sample_format_spec(format: u8, channels: u8, rate: u32) -> Seq<u8> {
    seq![255u8, 1, 0, 2, format, channels] + be32_bytes(rate)
}

/// The QEMU Audio client message that enables audio capture: message type
/// 255, submessage type 1, operation 0.
pub open spec fn enable_capture_spec() -> Seq<u8> {
    seq![255u8, 1, 0, 0]
}

/// Every byte the client writes during a complete successful handshake, in
/// order: the version literal, the selected security type 1, the ClientInit
/// shared flag 1, SetEncodings, the sample-format message with format id 3,
/// 2 channels and rate 48000, and the enable-capture message.
pub open spec fn handshake_writes_spec() -> Seq<u8> {
    client_version_spec() + seq![1u8] + seq![1u8] + set_encodings_spec() + sample_format_spec(
        3,
        2,
        48000,
    ) + enable_capture_spec()
}

/// Builds the client protocol version message.
pub fn client_version_message() -> (r: Vec<u8>)
    ensures
        r@ == client_version_spec(),
{
    let mut r: Vec<u8> = Vec::new();
    r.push(0x52);
    r.push(0x46);
    r.push(0x42);
    r.push(0x20);
    r.push(0x30);
    r.push(0x30);
    r.push(0x33);
    r.push(0x2e);
    r.push(0x30);
    r.push(0x30);
    r.push(0x38);
    r.push(0x0a);
    proof {
        assert(r@ =~= client_version_spec());
    }
    r
}

/// Builds the SetEncodings message that declares the QEMU Audio
/// pseudo-encoding.
pub fn set_encodings_message() -> (r: Vec<u8>)
    ensures
        r@ == set_encodings_spec(),
{
    let mut r: Vec<u8> = Vec::new();
    r.push(2);
    r.push(0);
    r.push(0);
    r.push(1);
    r.push(0xff);
    r.push(0xff);
    r.push(0xfe);
    r.push(0xfd);
    proof {
        assert(r@ =~= set_encodings_spec());
    }
    r
}

/// Builds the QEMU Audio client message that sets the sample format.
pub fn sample_format_message(format: u8, channels: u8, rate: u32) -> (r: Vec<u8>)
    ensures
        r@ == sample_format_spec(format, channels, rate),
{
    let mut r: Vec<u8> = Vec::new();
    r.push(255);
    r.push(1);
    r.push(0);
    r.push(2);
    r.push(format);
    r.push(channels);
    let mut rate_bytes = write_be32(rate);
    r.append(&mut rate_bytes);
    proof {
        assert(r@ =~= sample_format_spec(format, channels, rate));
    }
    r
}

/// Builds the QEMU Audio client message that enables audio capture.
pub fn enable_capture_message() -> (r: Vec<u8>)
    ensures
        r@ == enable_capture_spec(),
{
    let mut r: Vec<u8> = Vec::new();
    r.push(255);
    r.push(1);
    r.push(0);
    r.push(0);
    proof {
        assert(r@ =~= enable_capture_spec());
    }
    r
}

} // verus!
