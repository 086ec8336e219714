//! Digests, encodings and random bytes, from the crates that make them.

use vstd::prelude::*;

verus! {

/// The SHA-256 digest of `bytes`.
pub uninterp spec fn sha256_of(bytes: Seq<u8>) -> Seq<u8>;

/// Calls `sha2::Sha256::digest`. A digest depends on the bytes alone and is 32 bytes
/// long.
#[verifier::external_body]
pub(crate) fn sha256(bytes: &[u8]) -> (digest: Vec<u8>)
    ensures
        digest@ == sha256_of(bytes@),
        digest@.len() == 32,
{
    <sha2::Sha256 as sha2::Digest>::digest(bytes).to_vec()
}

/// A character of the URL-safe base64 alphabet.
pub open spec fn is_base64url(c: char) -> bool {
    'A' <= c <= 'Z' || 'a' <= c <= 'z' || '0' <= c <= '9' || c == '-' || c == '_'
}

/// The URL-safe base64 text of `bytes`, without padding.
pub uninterp spec fn base64url_of(bytes: Seq<u8>) -> Seq<char>;

/// The bytes that a URL-safe base64 text without padding stands for, if it is one.
pub uninterp spec fn base64url_decoded(text: Seq<char>) -> Option<Seq<u8>>;

/// Calls `encode` of `base64::engine::general_purpose::URL_SAFE_NO_PAD`. Every three
/// bytes become four characters of the alphabet, a rest of one or two bytes becomes
/// two or three, and decoding the text gives the bytes back.
#[verifier::external_body]
pub(crate) fn encode_base64url(bytes: &[u8]) -> (text: String)
    ensures
        text@ == base64url_of(bytes@),
        text@.len() == (4 * bytes@.len() + 2) / 3,
        forall|i: int| 0 <= i < text@.len() ==> is_base64url(#[trigger] text@[i]),
        base64url_decoded(text@) == Some(bytes@),
{
    base64::Engine::encode(&base64::engine::general_purpose::URL_SAFE_NO_PAD, bytes)
}

/// Calls `decode` of `base64::engine::general_purpose::URL_SAFE_NO_PAD`. Whether a text
/// decodes, and to what, depends on the text alone.
#[verifier::external_body]
pub(crate) fn decode_base64url(text: &str) -> (bytes: Option<Vec<u8>>)
    ensures
        match bytes {
            Some(bytes) => base64url_decoded(text@) == Some(bytes@),
            None => base64url_decoded(text@) is None,
        },
{
    base64::Engine::decode(&base64::engine::general_purpose::URL_SAFE_NO_PAD, text).ok()
}

/// Calls `getrandom::getrandom`. Of what it gives only the length is certain; where it
/// fails it gives the text of its error.
#[verifier::external_body]
pub(crate) fn random_bytes(count: usize) -> (bytes: Result<Vec<u8>, String>)
    ensures
        bytes matches Ok(bytes) ==> bytes@.len() == count,
{
    let mut bytes = vec![0; count];
    getrandom::getrandom(&mut bytes).map(|_| bytes).map_err(|error| error.to_string())
}

/// `bytes` came out of a draw of this many random bytes.
pub closed spec fn drawn(count: usize, bytes: Seq<u8>) -> bool {
    exists|draw: Result<Vec<u8>, String>| #[trigger]
        call_ensures(random_bytes, (count,), draw) && (draw matches Ok(found) && found@ == bytes)
}

/// A draw of this many random bytes failed for `reason`.
pub closed spec fn draw_failed(count: usize, reason: Seq<char>) -> bool {
    exists|draw: Result<Vec<u8>, String>| #[trigger]
        call_ensures(random_bytes, (count,), draw) && (draw matches Err(found) && found@ == reason)
}

/// Draws random bytes.
pub fn draw(count: usize) -> (bytes: Result<Vec<u8>, String>)
    ensures
        match bytes {
            Ok(bytes) => drawn(count, bytes@) && bytes@.len() == count,
            Err(reason) => draw_failed(count, reason@),
        },
{
    random_bytes(count)
}

} // verus!
