//! Binary/text codecs used at the service boundary: base58 for keys and
//! base64 for signatures and instruction payloads.
//!
//! The encodings themselves are performed by outside crates; each call sits
//! behind a trusted wrapper whose contract names the encoding as an abstract
//! function of the input bytes.

use vstd::prelude::*;

use base64::Engine;

verus! {

/// The base58 text (bitcoin alphabet) that encodes the given bytes.
pub uninterp spec fn base58_of(bytes: Seq<u8>) -> Seq<char>;

/// The standard (padded) base64 text that encodes the given bytes.
pub uninterp spec fn base64_of(bytes: Seq<u8>) -> Seq<char>;

#[verifier::external_type_specification]
#[verifier::external_body]
pub struct ExBs58DecodeError(bs58::decode::Error);

#[verifier::external_type_specification]
#[verifier::external_body]
pub struct ExBase64DecodeError(base64::DecodeError);

/// Relies on `bs58::encode`: returns the base58 text for the bytes.
#[verifier::external_body]
pub(crate) fn base58_encode(bytes: &Vec<u8>) -> (r: String)
    ensures
        r@ == base58_of(bytes@),
{
    bs58::encode(bytes.as_slice()).into_string()
}

/// Relies on `bs58::decode`: inverts `bs58::encode`, so a decoded value
/// encodes back to the input text, the preimage is unique, and decoding
/// succeeds on every text that some byte sequence encodes to.
#[verifier::external_body]
pub(crate) fn base58_decode(s: &str) -> (r: Result<Vec<u8>, bs58::decode::Error>)
    ensures
        r matches Ok(v) ==> s@ == base58_of(v@),
        r matches Ok(v) ==> forall|w: Seq<u8>| #![trigger base58_of(w)] base58_of(w) == s@ ==> w == v@,
        (exists|w: Seq<u8>| #![trigger base58_of(w)] base58_of(w) == s@) ==> r is Ok,
{
    bs58::decode(s).into_vec()
}

/// Relies on `base64::engine::general_purpose::STANDARD.encode`: returns the
/// padded standard base64 text for the bytes.
#[verifier::external_body]
pub(crate) fn base64_encode(bytes: &Vec<u8>) -> (r: String)
    ensures
        r@ == base64_of(bytes@),
{
    base64::engine::general_purpose::STANDARD.encode(bytes.as_slice())
}

/// Relies on `base64::engine::general_purpose::STANDARD.decode`: accepts
/// exactly the canonical padded encodings, so a decoded value encodes back to
/// the input text, the preimage is unique, and decoding succeeds on every
/// text that some byte sequence encodes to.
#[verifier::external_body]
pub(crate) fn base64_decode(s: &str) -> (r: Result<Vec<u8>, base64::DecodeError>)
    ensures
        r matches Ok(v) ==> s@ == base64_of(v@),
        r matches Ok(v) ==> forall|w: Seq<u8>| #![trigger base64_of(w)] base64_of(w) == s@ ==> w == v@,
        (exists|w: Seq<u8>| #![trigger base64_of(w)] base64_of(w) == s@) ==> r is Ok,
{
    base64::engine::general_purpose::STANDARD.decode(s)
}

} // verus!
