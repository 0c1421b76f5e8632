//! Text fields carried as bytes on the wire.
use vstd::prelude::*;
use vstd::string::StringExecFns;
use vstd::utf8::{decode_utf8, valid_utf8};

verus! {

/// Relies on `String::from_utf8`: it accepts exactly the byte sequences that
/// are valid UTF-8, and the string it then returns holds the characters that
/// those bytes encode.
#[verifier::external_body]
fn utf8_string(bytes: Vec<u8>) -> (r: Option<String>)
    ensures
        r is Some <==> valid_utf8(bytes@),
        r matches Some(s) ==> s@ == decode_utf8(bytes@),
{
    String::from_utf8(bytes).ok()
}

/// The text that `bytes` holds, or `fallback` where they are not valid UTF-8.
pub open spec fn text_or(bytes: Seq<u8>, fallback: Seq<char>) -> Seq<char> {
    if valid_utf8(bytes) {
        decode_utf8(bytes)
    } else {
        fallback
    }
}

/// Decodes `bytes` as UTF-8, falling back to `fallback`.
pub fn decode_text(bytes: Vec<u8>, fallback: &str) -> (r: String)
    ensures
        r@ == text_or(bytes@, fallback@),
{
    match utf8_string(bytes) {
        Some(s) => s,
        None => String::from_str(fallback),
    }
}

} // verus!
