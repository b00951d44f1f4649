//! The messages that a client sends to the server, as bytes.

use vstd::prelude::*;
use vstd::string::StringSliceAdditionalSpecFns;
use crate::stream::StreamWriter;
use crate::types::VncEncoding;
use crate::wire::{be16_bytes, be32_bytes, bits_of_i32};

verus! {

/// The version that the client answers with, whatever the server offered.
pub open spec fn version_reply() -> Seq<u8> {
    seq![0x52u8, 0x46, 0x42, 0x20, 0x30, 0x30, 0x33, 0x2e, 0x30, 0x30, 0x33, 0x0a]
}

/// The version string `RFB 003.00x` and a line feed, `minor` being the
/// character that stands for `x`.
pub open spec fn version_offer(minor: u8) -> Seq<u8> {
    seq![0x52u8, 0x46, 0x42, 0x20, 0x30, 0x30, 0x33, 0x2e, 0x30, 0x30, minor, 0x0a]
}

/// Whether `bytes` offer one of the versions 3.3, 3.7 and 3.8.
pub open spec fn known_version(bytes: Seq<u8>) -> bool {
    bytes == version_offer(0x33) || bytes == version_offer(0x37) || bytes == version_offer(0x38)
}

/// ClientInit: the one byte that says that the desktop may be shared.
pub open spec fn client_init() -> Seq<u8> {
    seq![1u8]
}

/// The numbers of `encodings`, four bytes each.
pub open spec fn encoding_codes(encodings: Seq<VncEncoding>) -> Seq<u8>
    decreases encodings.len(),
{
    if encodings.len() == 0 {
        Seq::empty()
    } else {
        encoding_codes(encodings.drop_last()) + be32_bytes(
            bits_of_i32(encodings.last().spec_code()),
        )
    }
}

/// SetEncodings: type 2, a byte of padding, how many encodings follow, and
/// their numbers.
pub open spec fn set_encodings(encodings: Seq<VncEncoding>) -> Seq<u8> {
    seq![2u8, 0u8] + be16_bytes(encodings.len() as u16) + encoding_codes(encodings)
}

/// FramebufferUpdateRequest: type 3, whether only changes are wanted, and the
/// rectangle asked for, which starts at the origin.
pub open spec fn update_request(incremental: u8, width: u16, height: u16) -> Seq<u8> {
    seq![3u8, incremental] + be16_bytes(0) + be16_bytes(0) + be16_bytes(width) + be16_bytes(height)
}

/// KeyEvent: type 4, whether the key went down, two bytes of padding, and the
/// key's symbol.
pub open spec fn key_event(key: u32, down: bool) -> Seq<u8> {
    seq![4u8, if down { 1u8 } else { 0u8 }] + be16_bytes(0) + be32_bytes(key)
}

/// PointerEvent: type 5, the buttons that are down, and the position.
pub open spec fn pointer_event(x: u16, y: u16, mask: u8) -> Seq<u8> {
    seq![5u8, mask] + be16_bytes(x) + be16_bytes(y)
}

/// ClientCutText: type 6, three bytes of padding, the length of the text and
/// the text.
pub open spec fn cut_text(text: Seq<u8>) -> Seq<u8> {
    seq![6u8, 0u8] + be16_bytes(0) + be32_bytes(text.len() as u32) + text
}

/// The bytes of the version that the client answers with.
pub fn version_reply_message() -> (out: Vec<u8>)
    ensures
        out@ == version_reply(),
{
    let out = vec![0x52u8, 0x46, 0x42, 0x20, 0x30, 0x30, 0x33, 0x2e, 0x30, 0x30, 0x33, 0x0a];
    assert(out@ =~= version_reply());
    out
}

/// Whether `bytes` offer one of the versions 3.3, 3.7 and 3.8.
pub fn is_known_version(bytes: &Vec<u8>) -> (known: bool)
    ensures
        known == known_version(bytes@),
{
    if bytes.len() != 12 {
        return false;
    }
    let minor = bytes[10];
    let shape = bytes[0] == 0x52 && bytes[1] == 0x46 && bytes[2] == 0x42 && bytes[3] == 0x20
        && bytes[4] == 0x30 && bytes[5] == 0x30 && bytes[6] == 0x33 && bytes[7] == 0x2e && bytes[8]
        == 0x30 && bytes[9] == 0x30 && bytes[11] == 0x0a;
    let known = shape && (minor == 0x33 || minor == 0x37 || minor == 0x38);
    proof {
        if known {
            assert(bytes@ =~= version_offer(minor));
        }
    }
    known
}

/// The bytes of ClientInit.
pub fn client_init_message() -> (out: Vec<u8>)
    ensures
        out@ == client_init(),
{
    let out = vec![1u8];
    assert(out@ =~= client_init());
    out
}

/// The bytes of SetEncodings for `encodings`, in their order.
pub fn set_encodings_message(encodings: &Vec<VncEncoding>) -> (out: Vec<u8>)
    requires
        encodings@.len() <= 0xffff,
    ensures
        out@ == set_encodings(encodings@),
{
    let mut out: Vec<u8> = Vec::new();
    let mut sw = StreamWriter::new(&mut out);
    sw.write_u8(2);
    sw.write_u8(0);
    sw.write_u16(encodings.len() as u16);
    let ghost head = sw.inner@;
    assert(head =~= seq![2u8, 0u8] + be16_bytes(encodings@.len() as u16));
    let mut i: usize = 0;
    while i < encodings.len()
        invariant
            i <= encodings@.len(),
            sw.inner@ == head + encoding_codes(encodings@.take(i as int)),
            after_borrow(out) == *final(sw.inner),
        decreases encodings@.len() - i,
    {
        sw.write_s32(encodings[i].code());
        proof {
            assert(encodings@.take(i + 1).drop_last() =~= encodings@.take(i as int));
            assert(sw.inner@ =~= head + encoding_codes(encodings@.take(i + 1)));
        }
        i += 1;
    }
    assert(encodings@.take(encodings@.len() as int) =~= encodings@);
    out
}

/// The bytes of FramebufferUpdateRequest for the whole frame buffer.
pub fn update_request_message(incremental: u8, width: u16, height: u16) -> (out: Vec<u8>)
    ensures
        out@ == update_request(incremental, width, height),
{
    let mut out: Vec<u8> = Vec::new();
    let mut sw = StreamWriter::new(&mut out);
    sw.write_u8(3);
    sw.write_u8(incremental);
    sw.write_u16(0);
    sw.write_u16(0);
    sw.write_u16(width);
    sw.write_u16(height);
    assert(sw.inner@ =~= update_request(incremental, width, height));
    out
}

/// The bytes of KeyEvent.
pub fn key_event_message(key: u32, down: bool) -> (out: Vec<u8>)
    ensures
        out@ == key_event(key, down),
{
    let mut out: Vec<u8> = Vec::new();
    let mut sw = StreamWriter::new(&mut out);
    sw.write_u8(4);
    sw.write_u8(if down { 1 } else { 0 });
    sw.write_u16(0);
    sw.write_u32(key);
    assert(sw.inner@ =~= key_event(key, down));
    out
}

/// The bytes of PointerEvent.
pub fn pointer_event_message(x: u16, y: u16, mask: u8) -> (out: Vec<u8>)
    ensures
        out@ == pointer_event(x, y, mask),
{
    let mut out: Vec<u8> = Vec::new();
    let mut sw = StreamWriter::new(&mut out);
    sw.write_u8(5);
    sw.write_u8(mask);
    sw.write_u16(x);
    sw.write_u16(y);
    assert(sw.inner@ =~= pointer_event(x, y, mask));
    out
}

/// The bytes of ClientCutText, if the text's length fits in 32 bits.
pub fn cut_text_message(text: &str) -> (out: Option<Vec<u8>>)
    ensures
        match out {
            Some(v) => text.spec_bytes().len() <= u32::MAX && v@ == cut_text(text.spec_bytes()),
            None => text.spec_bytes().len() > u32::MAX,
        },
{
    let n = text.as_bytes().len();
    if n as u64 > u32::MAX as u64 {
        return None;
    }
    let mut out: Vec<u8> = Vec::new();
    let mut sw = StreamWriter::new(&mut out);
    sw.write_u8(6);
    sw.write_u8(0);
    sw.write_u16(0);
    sw.write_string_l32(text);
    assert(sw.inner@ =~= cut_text(text.spec_bytes()));
    Some(out)
}

} // verus!
