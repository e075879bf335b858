//! Offline verification of a license key: its signature against the embedded
//! verification key.

use crate::digest::{sha256, sha256_digest};
use crate::key::{check_format, is_license_key};
use crate::text::{push_utf8, utf8};
use ed25519_dalek::{Signature, Verifier, VerifyingKey};
use vstd::prelude::*;
use vstd::string::StrSliceExecFns;

verus! {

/// The bytes that standard base64 text decodes to, or `None` where the text is
/// not standard base64.
pub uninterp spec fn base64_decoded(text: Seq<char>) -> Option<Seq<u8>>;

/// Whether thirty-two bytes are the compressed form of a point of the Ed25519
/// curve, and so a verification key.
pub uninterp spec fn ed25519_key_ok(key: Seq<u8>) -> bool;

/// Whether `signature` is an Ed25519 signature of `message` under the
/// verification key `key`.
pub uninterp spec fn ed25519_verifies(key: Seq<u8>, message: Seq<u8>, signature: Seq<u8>) -> bool;

/// Calls `base64::decode`, which decodes with the standard alphabet and
/// padding. `base64_decoded` is the name of its result.
#[verifier::external_body]
#[allow(deprecated)]
fn base64_decode(text: &str) -> (bytes: Option<Vec<u8>>)
    ensures
        match bytes {
            Some(b) => base64_decoded(text@) == Some(b@),
            None => base64_decoded(text@) is None,
        },
{
    match base64::decode(text) {
        Ok(bytes) => Some(bytes),
        Err(_) => None,
    }
}

/// Calls `ed25519_dalek::VerifyingKey::from_bytes` and reports whether it gave
/// a key. `ed25519_key_ok` is the name of that answer.
#[verifier::external_body]
fn ed25519_accepts_key(key: &[u8]) -> (ok: bool)
    requires
        key@.len() == 32,
    ensures
        ok == ed25519_key_ok(key@),
{
    match <[u8; 32]>::try_from(key) {
        Ok(bytes) => VerifyingKey::from_bytes(&bytes).is_ok(),
        Err(_) => false,
    }
}

/// Calls `ed25519_dalek::VerifyingKey::verify` with the key and the signature
/// built from their bytes, and reports whether it accepted.
/// `ed25519_verifies` is the name of that answer.
#[verifier::external_body]
fn ed25519_verify(key: &[u8], message: &[u8], signature: &[u8]) -> (ok: bool)
    requires
        key@.len() == 32,
        signature@.len() == 64,
    ensures
        ok == ed25519_verifies(key@, message@, signature@),
{
    match (VerifyingKey::try_from(key), Signature::from_slice(signature)) {
        (Ok(key), Ok(signature)) => key.verify(message, &signature).is_ok(),
        _ => false,
    }
}

/// Why the offline check of a license key failed.
#[derive(Clone, Copy, Debug, PartialEq, Eq, Structural)]
pub enum SignatureError {
    /// The embedded verification key is not base64 text.
    PublicKeyEncoding,
    /// The embedded verification key is not thirty-two bytes long.
    PublicKeyLength,
    /// The embedded verification key is not a point of the curve.
    PublicKeyInvalid,
    /// The license key does not have the textual form that the signed message
    /// is built from.
    KeyMalformed,
    /// No signature material was presented with the license key.
    SignatureMissing,
    /// The signature is not sixty-four bytes long.
    SignatureLength,
    /// The signature is not one of the license key under the verification key.
    Mismatch,
}

/// The message of a signature error.
pub open spec fn signature_error_text(e: SignatureError) -> Seq<char> {
    match e {
        SignatureError::PublicKeyEncoding => "Failed to decode embedded public key"@,
        SignatureError::PublicKeyLength => "Invalid public key length"@,
        SignatureError::PublicKeyInvalid => "Failed to create verifying key"@,
        SignatureError::KeyMalformed => "License key has no signed message"@,
        SignatureError::SignatureMissing => "No signature in key"@,
        SignatureError::SignatureLength => "Invalid signature length"@,
        SignatureError::Mismatch => "License signature does not match"@,
    }
}

impl SignatureError {
    /// Says in words why the check failed.
    pub fn message(&self) -> (text: String)
        ensures
            text@ == signature_error_text(*self),
    {
        match self {
            SignatureError::PublicKeyEncoding => String::from_str(
                "Failed to decode embedded public key",
            ),
            SignatureError::PublicKeyLength => String::from_str("Invalid public key length"),
            SignatureError::PublicKeyInvalid => String::from_str("Failed to create verifying key"),
            SignatureError::KeyMalformed => String::from_str("License key has no signed message"),
            SignatureError::SignatureMissing => String::from_str("No signature in key"),
            SignatureError::SignatureLength => String::from_str("Invalid signature length"),
            SignatureError::Mismatch => String::from_str("License signature does not match"),
        }
    }
}

/// The verification key that the base64 text `public_key` holds, or the first
/// reason why it holds none.
pub open spec fn verification_key_verdict(public_key: Seq<char>) -> Result<
    Seq<u8>,
    SignatureError,
> {
    match base64_decoded(public_key) {
        None => Err(SignatureError::PublicKeyEncoding),
        Some(bytes) => if bytes.len() != 32 {
            Err(SignatureError::PublicKeyLength)
        } else if !ed25519_key_ok(bytes) {
            Err(SignatureError::PublicKeyInvalid)
        } else {
            Ok(bytes)
        },
    }
}

/// The group of four characters with index `i` in a license key; group 0 is the
/// prefix.
pub open spec fn key_group(key: Seq<char>, i: int) -> Seq<char> {
    key.subrange(5 * i, 5 * i + 4)
}

/// The bytes that a license key is signed over: its four groups after the
/// prefix, without the hyphens.
pub open spec fn signed_text(key: Seq<char>) -> Seq<u8> {
    utf8(key_group(key, 1)) + utf8(key_group(key, 2)) + utf8(key_group(key, 3)) + utf8(
        key_group(key, 4),
    )
}

/// The signed message of a license key: the SHA-256 digest of its signed text.
pub open spec fn license_message(key: Seq<char>) -> Seq<u8> {
    sha256(signed_text(key))
}

/// The outcome of verifying `signature` as a signature of `key`.
pub open spec fn signature_verdict(
    public_key: Seq<char>,
    key: Seq<char>,
    signature: Seq<u8>,
) -> Result<(), SignatureError> {
    match verification_key_verdict(public_key) {
        Err(e) => Err(e),
        Ok(key_bytes) => if !is_license_key(key) {
            Err(SignatureError::KeyMalformed)
        } else if signature.len() != 64 {
            Err(SignatureError::SignatureLength)
        } else if !ed25519_verifies(key_bytes, license_message(key), signature) {
            Err(SignatureError::Mismatch)
        } else {
            Ok(())
        },
    }
}

/// Decodes the embedded verification key and checks that it is one.
pub fn decode_verification_key(public_key: &str) -> (key: Result<Vec<u8>, SignatureError>)
    ensures
        match key {
            Ok(bytes) => verification_key_verdict(public_key@) == Ok::<Seq<u8>, SignatureError>(
                bytes@,
            ),
            Err(e) => verification_key_verdict(public_key@) == Err::<Seq<u8>, SignatureError>(e),
        },
{
    match base64_decode(public_key) {
        None => Err(SignatureError::PublicKeyEncoding),
        Some(bytes) => {
            if bytes.len() != 32 {
                Err(SignatureError::PublicKeyLength)
            } else if !ed25519_accepts_key(bytes.as_slice()) {
                Err(SignatureError::PublicKeyInvalid)
            } else {
                Ok(bytes)
            }
        },
    }
}

/// Rebuilds the message that a license key is signed over, where the key has
/// the textual form of one.
pub fn signed_message(key: &str) -> (message: Option<Vec<u8>>)
    ensures
        message is Some <==> is_license_key(key@),
        message matches Some(m) ==> m@ == license_message(key@),
{
    if check_format(key).is_err() {
        return None;
    }
    let mut text: Vec<u8> = Vec::new();
    push_utf8(&mut text, key.substring_char(5, 9));
    push_utf8(&mut text, key.substring_char(10, 14));
    push_utf8(&mut text, key.substring_char(15, 19));
    push_utf8(&mut text, key.substring_char(20, 24));
    assert(text@ =~= signed_text(key@));
    Some(sha256_digest(text.as_slice()))
}

/// Verifies `signature` as an Ed25519 signature of the license key's signed
/// message under the embedded verification key.
pub fn verify_signature(public_key: &str, key: &str, signature: &[u8]) -> (verdict: Result<
    (),
    SignatureError,
>)
    ensures
        verdict == signature_verdict(public_key@, key@, signature@),
{
    match decode_verification_key(public_key) {
        Err(e) => Err(e),
        Ok(key_bytes) => match signed_message(key) {
            None => Err(SignatureError::KeyMalformed),
            Some(message) => {
                if signature.len() != 64 {
                    Err(SignatureError::SignatureLength)
                } else if !ed25519_verify(key_bytes.as_slice(), message.as_slice(), signature) {
                    Err(SignatureError::Mismatch)
                } else {
                    Ok(())
                }
            },
        },
    }
}

/// The outcome of the offline check of a license key. The key must come with
/// signature material, and the material must be a signature of the key: a key
/// without material is refused like a key with a signature that does not
/// verify.
pub open spec fn license_verdict(
    public_key: Seq<char>,
    key: Seq<char>,
    signature: Option<Seq<u8>>,
) -> Result<(), SignatureError> {
    match signature {
        Some(s) => signature_verdict(public_key, key, s),
        None => match verification_key_verdict(public_key) {
            Err(e) => Err(e),
            Ok(_) => if !is_license_key(key) {
                Err(SignatureError::KeyMalformed)
            } else {
                Err(SignatureError::SignatureMissing)
            },
        },
    }
}

/// The offline check accepts a key only with a signature that verifies: the
/// verification key is usable, the key has the form of a license key, and the
/// material presented is sixty-four bytes that are an Ed25519 signature of the
/// key's signed message under the verification key.
pub proof fn lemma_accepted_keys_are_signed(
    public_key: Seq<char>,
    key: Seq<char>,
    signature: Option<Seq<u8>>,
)
    ensures
        license_verdict(public_key, key, signature) is Ok <==> {
            &&& verification_key_verdict(public_key) is Ok
            &&& is_license_key(key)
            &&& signature is Some
            &&& signature->0.len() == 64
            &&& ed25519_verifies(
                verification_key_verdict(public_key)->Ok_0,
                license_message(key),
                signature->0,
            )
        },
{
}

/// Checks a license key offline against the verification key, with the
/// signature material that is presented with it. Nothing is asked of any
/// server.
pub fn verify_license(public_key: &str, key: &str, signature: Option<&[u8]>) -> (verdict: Result<
    (),
    SignatureError,
>)
    ensures
        verdict == license_verdict(public_key@, key@, opt_bytes(signature)),
{
    match signature {
        Some(s) => verify_signature(public_key, key, s),
        None => match decode_verification_key(public_key) {
            Err(e) => Err(e),
            Ok(_) => match signed_message(key) {
                None => Err(SignatureError::KeyMalformed),
                Some(_) => Err(SignatureError::SignatureMissing),
            },
        },
    }
}

/// The bytes of the signature material, where some is presented.
pub open spec fn opt_bytes(signature: Option<&[u8]>) -> Option<Seq<u8>> {
    match signature {
        Some(s) => Some(s@),
        None => None,
    }
}

} // verus!
