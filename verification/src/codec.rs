//! The slug codec: a long URL's fingerprint, and the URL-safe text that
//! stands for a fingerprint.
//!
//! A fingerprint is written as its eight bytes in little-endian order, and
//! those bytes as URL-safe base64 with padding.

use crate::mapping::UrlMapping;
use base64::engine::general_purpose::URL_SAFE;
use base64::Engine;
use std::collections::hash_map::DefaultHasher;
use std::hash::Hasher;
use vstd::bytes::lemma_auto_spec_u64_to_from_le_bytes;
use vstd::bytes::spec_u64_from_le_bytes;
use vstd::bytes::spec_u64_to_le_bytes;
use vstd::bytes::u64_from_le_bytes;
use vstd::bytes::u64_to_le_bytes;
use vstd::prelude::*;
use vstd::std_specs::hash::DefaultHasherAdditionalSpecFns;

verus! {

/// Why a text is no slug.
#[derive(Clone, Copy, Debug, PartialEq, Eq, Structural)]
pub enum DecodeError {
    /// The text is not URL-safe base64.
    InvalidBase64,
    /// The text is URL-safe base64 of some number of bytes other than eight.
    InvalidLength,
}

/// The text that `base64`'s `URL_SAFE` engine writes for `bytes`.
pub uninterp spec fn url_safe_encoding(bytes: Seq<u8>) -> Seq<char>;

/// The bytes that `base64`'s `URL_SAFE` engine reads from `text`, `None`
/// where it rejects `text`.
pub uninterp spec fn url_safe_decoding(text: Seq<char>) -> Option<Seq<u8>>;

/// `Engine::encode` of `base64`, on the `URL_SAFE` engine. Trusted: the text
/// returned is the engine's encoding of `bytes`, and the same engine decodes
/// it back to `bytes`.
#[verifier::external_body]
fn encode_url_safe(bytes: &[u8]) -> (text: String)
    requires
        bytes@.len() == 8,
    ensures
        text@ == url_safe_encoding(bytes@),
        url_safe_decoding(text@) == Some(bytes@),
{
    URL_SAFE.encode(bytes)
}

/// `Engine::decode` of `base64`, on the `URL_SAFE` engine. Trusted: `Some`
/// holds the engine's decoding of `text`, and `None` comes exactly where the
/// engine rejects `text`.
#[verifier::external_body]
fn decode_url_safe(text: &str) -> (decoded: Option<Vec<u8>>)
    ensures
        match decoded {
            Some(bytes) => url_safe_decoding(text@) == Some(bytes@),
            None => url_safe_decoding(text@) is None,
        },
{
    URL_SAFE.decode(text).ok()
}

/// The fingerprint of a URL: the standard library's default hash, with its
/// fixed keys, of the URL's UTF-8 bytes, read as a signed integer.
pub open spec fn spec_fingerprint(url: Seq<char>) -> i64 {
    DefaultHasher::spec_finish(seq![vstd::utf8::encode_utf8(url)]) as i64
}

/// The eight bytes of a fingerprint, least significant first.
pub open spec fn fingerprint_bytes(url_hash: i64) -> Seq<u8> {
    spec_u64_to_le_bytes(url_hash as u64)
}

/// The fingerprint whose bytes, least significant first, are `bytes`.
pub open spec fn bytes_fingerprint(bytes: Seq<u8>) -> i64 {
    spec_u64_from_le_bytes(bytes) as i64
}

/// The slug of a fingerprint.
pub open spec fn spec_get_slug(url_hash: i64) -> Seq<char> {
    url_safe_encoding(fingerprint_bytes(url_hash))
}

/// What a decoded text stands for: a fingerprint where it is eight bytes,
/// an error otherwise.
pub open spec fn fingerprint_of_decoded(decoded: Option<Seq<u8>>) -> Result<i64, DecodeError> {
    match decoded {
        None => Err(DecodeError::InvalidBase64),
        Some(bytes) => if bytes.len() == 8 {
            Ok(bytes_fingerprint(bytes))
        } else {
            Err(DecodeError::InvalidLength)
        },
    }
}

/// The fingerprint that a slug stands for, or why the text is no slug.
pub open spec fn spec_slug_to_int(slug: Seq<char>) -> Result<i64, DecodeError> {
    fingerprint_of_decoded(url_safe_decoding(slug))
}

/// Writing a fingerprint as bytes and reading the bytes gives it back.
pub proof fn lemma_fingerprint_bytes_round_trip(url_hash: i64)
    ensures
        fingerprint_bytes(url_hash).len() == 8,
        bytes_fingerprint(fingerprint_bytes(url_hash)) == url_hash,
{
    lemma_auto_spec_u64_to_from_le_bytes();
    let unsigned = url_hash as u64;
    assert(spec_u64_from_le_bytes(spec_u64_to_le_bytes(unsigned)) == unsigned);
    assert(unsigned as i64 == url_hash) by (bit_vector)
        requires
            unsigned == url_hash as u64,
    ;
}

/// The fingerprint of `url`.
pub fn fingerprint(url: &str) -> (url_hash: i64)
    ensures
        url_hash == spec_fingerprint(url@),
{
    let mut hasher = DefaultHasher::new();
    hasher.write(url.as_bytes());
    assert(hasher@ =~= seq![vstd::utf8::encode_utf8(url@)]);
    #[verifier::truncate]
    (hasher.finish() as i64)
}

/// The fingerprint that decoded bytes stand for.
pub fn fingerprint_from_bytes(decoded: Option<Vec<u8>>) -> (url_hash: Result<i64, DecodeError>)
    ensures
        url_hash == fingerprint_of_decoded(
            match decoded {
                Some(bytes) => Some(bytes@),
                None => None,
            },
        ),
{
    match decoded {
        None => Err(DecodeError::InvalidBase64),
        Some(bytes) => {
            if bytes.len() == 8 {
                let unsigned = u64_from_le_bytes(bytes.as_slice());
                Ok(
                    #[verifier::truncate]
                    (unsigned as i64),
                )
            } else {
                Err(DecodeError::InvalidLength)
            }
        },
    }
}

impl UrlMapping {
    /// The slug of `url_hash`. Reading the slug gives `url_hash` back.
    pub fn get_slug(url_hash: i64) -> (slug: String)
        ensures
            slug@ == spec_get_slug(url_hash),
            spec_slug_to_int(slug@) == Ok::<i64, DecodeError>(url_hash),
    {
        let bytes = u64_to_le_bytes(
            #[verifier::truncate]
            (url_hash as u64),
        );
        proof {
            lemma_fingerprint_bytes_round_trip(url_hash);
        }
        encode_url_safe(bytes.as_slice())
    }

    /// The fingerprint that `slug` stands for. Every text that is not the
    /// URL-safe base64 of exactly eight bytes is refused, and no other text.
    pub fn slug_to_int(slug: &String) -> (url_hash: Result<i64, DecodeError>)
        ensures
            url_hash == spec_slug_to_int(slug@),
            url_hash is Ok <==> (url_safe_decoding(slug@) matches Some(bytes) && bytes.len() == 8),
    {
        fingerprint_from_bytes(decode_url_safe(slug.as_str()))
    }

    /// As `slug_to_int`, for a slug that the caller gives away.
    pub fn from_slug(slug: String) -> (url_hash: Result<i64, DecodeError>)
        ensures
            url_hash == spec_slug_to_int(slug@),
            url_hash is Ok <==> (url_safe_decoding(slug@) matches Some(bytes) && bytes.len() == 8),
    {
        Self::slug_to_int(&slug)
    }
}

} // verus!
