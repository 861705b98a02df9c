//! The handshake frame: one length byte, that many bytes of UTF-8 name, one
//! newline terminator. Parsing validates the name bytes; building lays a
//! name out for the wire. The reads and writes themselves belong to the
//! transport layer, which hands the bytes read here and sends the bytes
//! built here.

use vstd::prelude::*;
use vstd::slice::slice_index_get;
use vstd::slice::slice_subrange;
use vstd::string::StringSliceAdditionalSpecFns;
use vstd::utf8::decode_utf8;
use vstd::utf8::valid_utf8;

use crate::codec::ProtocolError;

verus! {

/// Relies on std::str::from_utf8: it returns Ok exactly when the bytes are
/// valid UTF-8, and the returned slice is a view of those same bytes.
#[verifier::external_body]
fn utf8_from_bytes<'a>(bytes: &'a [u8]) -> (r: Option<&'a str>)
    ensures
        r matches Some(s) ==> valid_utf8(bytes@) && s@ == decode_utf8(bytes@),
        r is None ==> !valid_utf8(bytes@),
{
    std::str::from_utf8(bytes).ok()
}

/// The wire form of a handshake: the length byte, the name bytes, a newline.
pub open spec fn handshake_frame(name_bytes: Seq<u8>) -> Seq<u8>
    recommends
        name_bytes.len() <= 255,
{
    seq![name_bytes.len() as u8] + name_bytes + seq![10u8]
}

/// Validates a handshake already read off the wire: `len` is the length
/// byte, `tail` the exact `len + 1` bytes read after it (name payload plus
/// the terminator byte). Succeeds exactly when the name bytes are valid
/// UTF-8; the terminator byte is not inspected. The name is at most 255
/// bytes by the width of the length byte alone.
pub fn parse_handshake(len: u8, tail: &[u8]) -> (r: Result<String, ProtocolError>)
    requires
        tail@.len() == len as int + 1,
    ensures
        r matches Ok(name) ==> valid_utf8(tail@.subrange(0, len as int)) && name@ == decode_utf8(
            tail@.subrange(0, len as int),
        ),
        r matches Err(e) ==> !valid_utf8(tail@.subrange(0, len as int)) && e
            == ProtocolError::BadUtf8,
{
    let name_bytes = slice_subrange(tail, 0, len as usize);
    match utf8_from_bytes(name_bytes) {
        Some(s) => Ok(s.to_owned()),
        None => Err(ProtocolError::BadUtf8),
    }
}

/// Lays a connecting bot's name out as the handshake frame it sends: the
/// name's byte count, the bytes themselves, and the newline terminator. A
/// name over 255 bytes does not fit the length byte and has no frame.
pub fn encode_handshake(name: &str) -> (r: Vec<u8>)
    requires
        name.spec_bytes().len() <= 255,
    ensures
        r@ == handshake_frame(name.spec_bytes()),
{
    let bytes = name.as_bytes();
    let mut out: Vec<u8> = Vec::new();
    out.push(bytes.len() as u8);
    let mut i: usize = 0;
    while i < bytes.len()
        invariant
            i <= bytes@.len(),
            bytes@ == name.spec_bytes(),
            bytes@.len() <= 255,
            out@ =~= seq![(bytes@.len() as u8)] + bytes@.subrange(0, i as int),
        decreases bytes@.len() - i,
    {
        let b = *slice_index_get(bytes, i);
        out.push(b);
        i = i + 1;
    }
    out.push(10);
    proof {
        assert(out@ =~= handshake_frame(name.spec_bytes()));
    }
    out
}

/// Law: the handshake frame round-trips: its first byte counts exactly the
/// name bytes that follow, which it carries unchanged, and the terminator
/// closes the frame.
pub proof fn lemma_handshake_frame_round_trip(name_bytes: Seq<u8>)
    requires
        name_bytes.len() <= 255,
    ensures
        handshake_frame(name_bytes).len() == name_bytes.len() + 2,
        handshake_frame(name_bytes)[0] == name_bytes.len() as u8,
        handshake_frame(name_bytes).subrange(1, name_bytes.len() as int + 1) =~= name_bytes,
        handshake_frame(name_bytes).last() == 10u8,
{
}

} // verus!
