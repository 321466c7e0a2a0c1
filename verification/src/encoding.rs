//! Base58 and base64 codecs for keys, signatures and instruction data.
//!
//! Both codecs are the `bs58` and `base64` crates' own, in their standard
//! alphabets: bitcoin's for base58, RFC 4648 with `=` padding for base64.

use vstd::prelude::*;
use crate::error::ApiError;

verus! {

/// The text that `bs58::encode(bytes).into_string()` returns.
pub uninterp spec fn base58_text(bytes: Seq<u8>) -> Seq<char>;

/// What `bs58::decode(text).into_vec()` returns: the bytes, or `None` where
/// it reports an error.
pub uninterp spec fn base58_bytes(text: Seq<char>) -> Option<Seq<u8>>;

/// The text that the `STANDARD` engine of `base64` encodes `bytes` to.
pub uninterp spec fn base64_text(bytes: Seq<u8>) -> Seq<char>;

/// What the `STANDARD` engine of `base64` decodes `text` to: the bytes, or
/// `None` where it reports an error.
pub uninterp spec fn base64_bytes(text: Seq<char>) -> Option<Seq<u8>>;

/// `bs58`'s decoding error, carried as an opaque value and mapped to
/// `ApiError::InvalidEncoding`.
#[verifier::external_type_specification]
#[verifier::external_body]
pub struct ExBase58DecodeError(bs58::decode::Error);

/// `base64`'s decoding error, carried as an opaque value and mapped to
/// `ApiError::InvalidEncoding`.
#[verifier::external_type_specification]
#[verifier::external_body]
pub struct ExBase64DecodeError(base64::DecodeError);

/// Calls `bs58::encode(..).into_string()`. Trusted: the result is the
/// crate's encoding of `bytes`, and the crate's decoder maps that text back
/// to `bytes`.
#[verifier::external_body]
fn bs58_encode(bytes: &[u8]) -> (text: String)
    ensures
        text@ == base58_text(bytes@),
        base58_bytes(text@) == Some(bytes@),
{
    bs58::encode(bytes).into_string()
}

/// Calls `bs58::decode(..).into_vec()`. Trusted: the result is the crate's
/// decoding of `text`, an error exactly where it has none.
#[verifier::external_body]
fn bs58_decode(text: &str) -> (res: Result<Vec<u8>, bs58::decode::Error>)
    ensures
        match res {
            Ok(bytes) => base58_bytes(text@) == Some(bytes@),
            Err(_) => base58_bytes(text@) is None,
        },
{
    bs58::decode(text).into_vec()
}

/// Calls `Engine::encode` on `base64`'s `STANDARD` engine. Trusted: the
/// result is that engine's encoding of `bytes`, and the same engine decodes
/// that text back to `bytes`.
#[verifier::external_body]
fn b64_encode(bytes: &[u8]) -> (text: String)
    ensures
        text@ == base64_text(bytes@),
        base64_bytes(text@) == Some(bytes@),
{
    base64::Engine::encode(&base64::engine::general_purpose::STANDARD, bytes)
}

/// Calls `Engine::decode` on `base64`'s `STANDARD` engine. Trusted: the
/// result is that engine's decoding of `text`, an error exactly where it has
/// none.
#[verifier::external_body]
fn b64_decode(text: &str) -> (res: Result<Vec<u8>, base64::DecodeError>)
    ensures
        match res {
            Ok(bytes) => base64_bytes(text@) == Some(bytes@),
            Err(_) => base64_bytes(text@) is None,
        },
{
    base64::Engine::decode(&base64::engine::general_purpose::STANDARD, text)
}

/// The base58 text of `bytes`. Decoding the result gives `bytes` back.
pub fn encode_base58(bytes: &[u8]) -> (text: String)
    ensures
        text@ == base58_text(bytes@),
        base58_bytes(text@) == Some(bytes@),
{
    bs58_encode(bytes)
}

/// The bytes that `text` stands for in base58, or `InvalidEncoding` where it
/// stands for none.
pub fn decode_base58(text: &str) -> (res: Result<Vec<u8>, ApiError>)
    ensures
        match res {
            Ok(bytes) => base58_bytes(text@) == Some(bytes@),
            Err(e) => e == ApiError::InvalidEncoding && base58_bytes(text@) is None,
        },
{
    match bs58_decode(text) {
        Ok(bytes) => Ok(bytes),
        Err(_) => Err(ApiError::InvalidEncoding),
    }
}

/// The base64 text of `bytes`. Decoding the result gives `bytes` back.
pub fn encode_base64(bytes: &[u8]) -> (text: String)
    ensures
        text@ == base64_text(bytes@),
        base64_bytes(text@) == Some(bytes@),
{
    b64_encode(bytes)
}

/// The bytes that `text` stands for in base64, or `InvalidEncoding` where it
/// stands for none.
pub fn decode_base64(text: &str) -> (res: Result<Vec<u8>, ApiError>)
    ensures
        match res {
            Ok(bytes) => base64_bytes(text@) == Some(bytes@),
            Err(e) => e == ApiError::InvalidEncoding && base64_bytes(text@) is None,
        },
{
    match b64_decode(text) {
        Ok(bytes) => Ok(bytes),
        Err(_) => Err(ApiError::InvalidEncoding),
    }
}

} // verus!
