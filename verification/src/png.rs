//! Decoding of the base64 payload that the PNG-export command carries.
//! The UI hands the command raw standard base64 (no data-URL prefix); the
//! decoded bytes are what gets written to disk.

use vstd::prelude::*;

verus! {

/// The standard base64 alphabet, in value order.
pub open spec fn b64_alphabet() -> Seq<char> {
    seq![
        'A', 'B', 'C', 'D', 'E', 'F', 'G', 'H', 'I', 'J', 'K', 'L', 'M',
        'N', 'O', 'P', 'Q', 'R', 'S', 'T', 'U', 'V', 'W', 'X', 'Y', 'Z',
        'a', 'b', 'c', 'd', 'e', 'f', 'g', 'h', 'i', 'j', 'k', 'l', 'm',
        'n', 'o', 'p', 'q', 'r', 's', 't', 'u', 'v', 'w', 'x', 'y', 'z',
        '0', '1', '2', '3', '4', '5', '6', '7', '8', '9', '+', '/',
    ]
}

/// The alphabet character for one six-bit value.
pub open spec fn b64_char(v: int) -> char {
    b64_alphabet()[v]
}

/// Standard base64 with `=` padding: each group of three bytes becomes
/// four characters; a final group of one or two bytes is padded.
pub open spec fn b64_encode(bytes: Seq<u8>) -> Seq<char>
    decreases bytes.len(),
{
    if bytes.len() == 0 {
        Seq::<char>::empty()
    } else if bytes.len() == 1 {
        let b0 = bytes[0] as int;
        seq![b64_char(b0 / 4), b64_char((b0 % 4) * 16), '=', '=']
    } else if bytes.len() == 2 {
        let b0 = bytes[0] as int;
        let b1 = bytes[1] as int;
        seq![b64_char(b0 / 4), b64_char((b0 % 4) * 16 + b1 / 16), b64_char((b1 % 16) * 4), '=']
    } else {
        let b0 = bytes[0] as int;
        let b1 = bytes[1] as int;
        let b2 = bytes[2] as int;
        seq![
            b64_char(b0 / 4),
            b64_char((b0 % 4) * 16 + b1 / 16),
            b64_char((b1 % 16) * 4 + b2 / 64),
            b64_char(b2 % 64),
        ] + b64_encode(bytes.skip(3))
    }
}

/// Relies on base64::decode: standard alphabet with `=` padding, so
/// decoding the encoding of any byte sequence yields exactly that
/// sequence. The error is flattened to its message.
#[verifier::external_body]
fn decode_base64(data: &str) -> (r: Result<Vec<u8>, String>)
    ensures
        forall|b: Seq<u8>| data@ == b64_encode(b) ==> (r is Ok && r->Ok_0@ == b),
{
    base64::decode(data).map_err(|e| e.to_string())
}

/// The bytes the PNG-export command writes to disk: the standard-base64
/// decoding of `data`. Whenever `data` is the encoding of some bytes, the
/// result is exactly those bytes; otherwise the decoder's error comes
/// back as a message.
pub fn png_bytes_from_base64(data: &str) -> (r: Result<Vec<u8>, String>)
    ensures
        forall|b: Seq<u8>| data@ == b64_encode(b) ==> (r is Ok && r->Ok_0@ == b),
{
    decode_base64(data)
}

} // verus!
