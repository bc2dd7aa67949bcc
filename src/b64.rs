use vstd::prelude::*;

use base64::engine::general_purpose::{STANDARD, URL_SAFE_NO_PAD};
use base64::Engine;

use crate::error::TextError;
use crate::format::Base64Format;

verus! {

/// The standard base64 text of `b`, padded.
pub uninterp spec fn standard_of(b: Seq<u8>) -> Seq<char>;

/// The bytes of a standard, padded base64 text, or `None` if it is not one.
pub uninterp spec fn standard_decode_of(s: Seq<char>) -> Option<Seq<u8>>;

/// The URL-safe base64 text of `b`, without padding.
pub uninterp spec fn url_safe_of(b: Seq<u8>) -> Seq<char>;

/// The bytes of a URL-safe, unpadded base64 text, or `None` if it is not one.
pub uninterp spec fn url_safe_decode_of(s: Seq<char>) -> Option<Seq<u8>>;

/// Relies on `Engine::encode` of `base64::engine::general_purpose::STANDARD`.
#[verifier::external_body]
fn standard_encode(b: &[u8]) -> (r: String)
    ensures
        r@ == standard_of(b@),
{
    STANDARD.encode(b)
}

/// Relies on `Engine::decode` of `base64::engine::general_purpose::STANDARD`.
#[verifier::external_body]
fn standard_decode(s: &str) -> (r: Option<Vec<u8>>)
    ensures
        r is Some <==> standard_decode_of(s@) is Some,
        r matches Some(b) ==> standard_decode_of(s@) == Some(b@),
{
    STANDARD.decode(s).ok()
}

/// Relies on `Engine::encode` of
/// `base64::engine::general_purpose::URL_SAFE_NO_PAD`: decoding with the same
/// engine gives the bytes back.
#[verifier::external_body]
pub(crate) fn url_safe_encode(b: &[u8]) -> (r: String)
    ensures
        r@ == url_safe_of(b@),
        url_safe_decode_of(r@) == Some(b@),
{
    URL_SAFE_NO_PAD.encode(b)
}

/// Relies on `Engine::decode` of
/// `base64::engine::general_purpose::URL_SAFE_NO_PAD`.
#[verifier::external_body]
pub(crate) fn url_safe_decode(s: &str) -> (r: Option<Vec<u8>>)
    ensures
        r is Some <==> url_safe_decode_of(s@) is Some,
        r matches Some(b) ==> url_safe_decode_of(s@) == Some(b@),
{
    URL_SAFE_NO_PAD.decode(s).ok()
}

/// The base64 text of `input` in the given alphabet.
pub open spec fn encoded(input: Seq<u8>, format: Base64Format) -> Seq<char> {
    match format {
        Base64Format::Standard => standard_of(input),
        Base64Format::UrlSafe => url_safe_of(input),
    }
}

/// The bytes of a base64 text in the given alphabet.
pub open spec fn decoded(input: Seq<char>, format: Base64Format) -> Option<Seq<u8>> {
    match format {
        Base64Format::Standard => standard_decode_of(input),
        Base64Format::UrlSafe => url_safe_decode_of(input),
    }
}

/// Encodes `input` as base64.
pub fn process_encode(input: &[u8], format: Base64Format) -> (r: String)
    ensures
        r@ == encoded(input@, format),
{
    match format {
        Base64Format::Standard => standard_encode(input),
        Base64Format::UrlSafe => url_safe_encode(input),
    }
}

/// Decodes a base64 text; `Base64Decode` when it is not one in that
/// alphabet.
pub fn process_decode(input: &str, format: Base64Format) -> (r: Result<Vec<u8>, TextError>)
    ensures
        r is Ok <==> decoded(input@, format) is Some,
        r matches Ok(b) ==> decoded(input@, format) == Some(b@),
        r is Err ==> r == Err::<Vec<u8>, TextError>(TextError::Base64Decode),
{
    let d = match format {
        Base64Format::Standard => standard_decode(input),
        Base64Format::UrlSafe => url_safe_decode(input),
    };
    match d {
        Some(b) => Ok(b),
        None => Err(TextError::Base64Decode),
    }
}

} // verus!
