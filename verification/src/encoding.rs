//! Byte encodings the library relies on: UTF-8 (from std) and standard
//! base64 (from the `base64` crate).
use vstd::prelude::*;
use vstd::utf8::*;

use base64::Engine;

verus! {

/// The text that the `base64` crate's `general_purpose::STANDARD` engine
/// produces for `bytes` (RFC 4648 alphabet, `=` padding).
pub uninterp spec fn base64_standard_encode(bytes: Seq<u8>) -> Seq<char>;

/// The bytes that the `base64` crate's `general_purpose::STANDARD` engine
/// decodes from `text`, or `None` where it reports an error.
pub uninterp spec fn base64_standard_decode(text: Seq<char>) -> Option<Seq<u8>>;

/// The error type of base64 decoding, carried through unchanged.
#[verifier::external_type_specification]
#[verifier::external_body]
pub struct ExDecodeError(base64::DecodeError);

/// Calls `base64::engine::general_purpose::STANDARD.encode`.
/// Trusted: the result is the standard padded base64 text of `bytes`,
/// named `base64_standard_encode`.
#[verifier::external_body]
pub(crate) fn base64_encode(bytes: &[u8]) -> (r: String)
    ensures
        r@ == base64_standard_encode(bytes@),
{
    base64::engine::general_purpose::STANDARD.encode(bytes)
}

/// Calls `base64::engine::general_purpose::STANDARD.decode`.
/// Trusted: success and the decoded bytes follow `base64_standard_decode`,
/// and text that the same engine encoded from some bytes decodes back to
/// exactly those bytes. Which `DecodeError` comes out is not stated.
#[verifier::external_body]
pub(crate) fn base64_decode(text: &str) -> (r: Result<Vec<u8>, base64::DecodeError>)
    ensures
        r is Ok <==> base64_standard_decode(text@) is Some,
        r matches Ok(v) ==> base64_standard_decode(text@) == Some(v@),
        r is Ok <== exists|x: Seq<u8>| #[trigger] base64_standard_encode(x) == text@,
        r matches Ok(v) ==> forall|x: Seq<u8>| #[trigger] base64_standard_encode(x) == text@ ==> v@ == x,
{
    base64::engine::general_purpose::STANDARD.decode(text)
}

/// Calls `std::str::from_utf8`, with the error collapsed to `None`.
/// Trusted: it succeeds exactly on well-formed UTF-8 and then yields the
/// decoded characters.
#[verifier::external_body]
pub(crate) fn str_from_utf8(bytes: &[u8]) -> (r: Option<&str>)
    ensures
        r is Some <==> valid_utf8(bytes@),
        r matches Some(s) ==> s@ == decode_utf8(bytes@),
{
    std::str::from_utf8(bytes).ok()
}

/// Calls `String::from_utf8`, with the error collapsed to `None`.
/// Trusted: it succeeds exactly on well-formed UTF-8 and then yields the
/// decoded characters.
#[verifier::external_body]
pub(crate) fn string_from_utf8(bytes: Vec<u8>) -> (r: Option<String>)
    ensures
        r is Some <==> valid_utf8(bytes@),
        r matches Some(s) ==> s@ == decode_utf8(bytes@),
{
    String::from_utf8(bytes).ok()
}

} // verus!
