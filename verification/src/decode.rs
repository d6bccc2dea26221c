//! Decoding of base64 file bodies.
//!
//! A fetched file's body arrives as standard base64 that may contain
//! interleaved whitespace.  The whitespace is stripped here, in verified
//! code; the base64 alphabet itself is decoded by the `base64` crate behind a
//! trusted wrapper whose result is named by `base64_decode_of`.

use vstd::prelude::*;
use vstd::utf8::{decode_utf8, valid_utf8};

verus! {

/// The bytes stripped from a payload before base64 decoding: space, newline,
/// tab, carriage return, vertical tab and form feed.
pub open spec fn is_b64_whitespace(b: u8) -> bool {
    b == 0x20 || b == 0x0a || b == 0x09 || b == 0x0d || b == 0x0b || b == 0x0c
}

/// The input with every whitespace byte removed.
pub open spec fn strip_ws(s: Seq<u8>) -> Seq<u8>
    decreases s.len(),
{
    if s.len() == 0 {
        Seq::empty()
    } else if is_b64_whitespace(s.last()) {
        strip_ws(s.drop_last())
    } else {
        strip_ws(s.drop_last()).push(s.last())
    }
}

/// What decoding a payload means for this library: whitespace is dropped,
/// then the remaining bytes are decoded as standard base64.
pub open spec fn decoded_content(content: Seq<u8>) -> Option<Seq<u8>> {
    base64_decode_of(strip_ws(content))
}

/// What `base64::decode` returns on the given bytes: the decoded payload for
/// a well-formed standard-alphabet input, nothing otherwise.  The result is a
/// function of the input bytes alone.
pub uninterp spec fn base64_decode_of(s: Seq<u8>) -> Option<Seq<u8>>;

#[verifier::external_type_specification]
#[verifier::external_body]
pub struct ExDecodeError(base64::DecodeError);

/// Relies on `base64::decode`: standard-alphabet, padded base64 decoding
/// whose outcome depends on the input bytes alone.
#[verifier::external_body]
pub(crate) fn b64_decode(input: &Vec<u8>) -> (r: Result<Vec<u8>, base64::DecodeError>)
    ensures
        r is Ok <==> base64_decode_of(input@) is Some,
        r matches Ok(v) ==> Some(v@) == base64_decode_of(input@),
{
    base64::decode(input.as_slice())
}

/// Relies on `String::from_utf8`: it succeeds exactly on valid UTF-8 input
/// and returns the string those bytes encode.
#[verifier::external_body]
pub(crate) fn string_from_utf8(bytes: Vec<u8>) -> (r: Result<
    String,
    std::string::FromUtf8Error,
>)
    ensures
        r is Ok <==> valid_utf8(bytes@),
        r matches Ok(s) ==> s@ == decode_utf8(bytes@),
{
    String::from_utf8(bytes)
}

#[verifier::external_type_specification]
#[verifier::external_body]
pub struct ExFromUtf8Error(std::string::FromUtf8Error);

/// Removes every whitespace byte from the input, keeping all other bytes in
/// order.
pub fn strip_whitespace(input: &Vec<u8>) -> (r: Vec<u8>)
    ensures
        r@ == strip_ws(input@),
{
    let mut out: Vec<u8> = Vec::new();
    let mut i: usize = 0;
    while i < input.len()
        invariant
            i <= input.len(),
            out@ == strip_ws(input@.take(i as int)),
        decreases input.len() - i,
    {
        let b = input[i];
        proof {
            assert(input@.take(i + 1).drop_last() =~= input@.take(i as int));
            assert(input@.take(i + 1).last() == b);
        }
        if !(b == 0x20 || b == 0x0a || b == 0x09 || b == 0x0d || b == 0x0b || b == 0x0c) {
            out.push(b);
        }
        i = i + 1;
    }
    proof {
        assert(input@.take(input@.len() as int) =~= input@);
    }
    out
}

/// Stripping whitespace twice is the same as stripping it once.
pub proof fn lemma_strip_ws_idempotent(s: Seq<u8>)
    ensures
        strip_ws(strip_ws(s)) == strip_ws(s),
    decreases s.len(),
{
    if s.len() > 0 {
        lemma_strip_ws_idempotent(s.drop_last());
        if !is_b64_whitespace(s.last()) {
            let t = strip_ws(s.drop_last());
            assert(t.push(s.last()).drop_last() =~= t);
            assert(strip_ws(t.push(s.last())) == strip_ws(t).push(s.last()));
        }
    }
}

/// Law: a payload with interleaved whitespace decodes exactly as its
/// whitespace-stripped form does.
pub proof fn lemma_decode_ignores_whitespace(content: Seq<u8>)
    ensures
        decoded_content(strip_ws(content)) == decoded_content(content),
{
    lemma_strip_ws_idempotent(content);
}

} // verus!
