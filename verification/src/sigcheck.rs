//! Verification of one asserted RSA signature over one commitment string.
//!
//! A claim carries the signed payload (the commitment), a base64-encoded
//! signature and a PEM-encoded RSA public key in either SPKI or PKCS#1 form.
//! A claim is accepted exactly when the signature is a valid RSA
//! PKCS#1 v1.5 / SHA-256 signature over the UTF-8 bytes of the commitment
//! under that key. Every failure is a logical `false`, never a fault.

use vstd::prelude::*;
use vstd::utf8::encode_utf8;
use base64::Engine;
use rsa::pkcs1::DecodeRsaPublicKey;
use rsa::pkcs8::DecodePublicKey;
use sha2::Digest;

verus! {

#[verifier::external_type_specification]
#[verifier::external_body]
pub struct ExRsaPublicKey(rsa::RsaPublicKey);

/// The bytes a standard base64 string (with padding) denotes, or `None` if it
/// is not valid base64. The decoding is a function of the string alone.
pub uninterp spec fn base64_decoded(s: Seq<char>) -> Option<Seq<u8>>;

/// The SHA-256 digest of a byte sequence: a function of the bytes alone.
pub uninterp spec fn sha256_of(data: Seq<u8>) -> Seq<u8>;

/// Whether a PEM text parses as an SPKI-encoded RSA public key.
pub uninterp spec fn spki_key_ok(pem: Seq<char>) -> bool;

/// Whether a PEM text parses as a PKCS#1-encoded RSA public key.
pub uninterp spec fn pkcs1_key_ok(pem: Seq<char>) -> bool;

/// Whether RSA PKCS#1 v1.5 verification with the SHA-256 digest identifier
/// accepts `signature` for a message with digest `digest` under the public key
/// that `pem` encodes (`spki` tells which of the two encodings parsed it).
pub uninterp spec fn rsa_signature_ok(
    pem: Seq<char>,
    spki: bool,
    digest: Seq<u8>,
    signature: Seq<u8>,
) -> bool;

/// An RSA public key together with the PEM text it was parsed from.
/// Values exist only through the two trusted parsers below, so the held key
/// is always the one the recorded PEM text and encoding convention denote.
struct RsaKey {
    key: rsa::RsaPublicKey,
    pem: String,
    spki: bool,
}

impl RsaKey {
    pub closed spec fn pem_view(&self) -> Seq<char> {
        self.pem@
    }

    pub closed spec fn is_spki(&self) -> bool {
        self.spki
    }
}

/// Relies on base64::engine::general_purpose::STANDARD.decode: standard
/// alphabet with padding; success and result depend on the input alone.
#[verifier::external_body]
pub(crate) fn b64_decode(s: &str) -> (r: Option<Vec<u8>>)
    ensures
        r is Some <==> base64_decoded(s@) is Some,
        r matches Some(v) ==> Some(v@) == base64_decoded(s@),
{
    match base64::engine::general_purpose::STANDARD.decode(s) {
        Ok(bytes) => Some(bytes),
        Err(_) => None,
    }
}

/// Relies on sha2::Sha256 through digest::Digest::digest: the SHA-256 digest
/// of the input, 32 bytes, a function of the input alone.
#[verifier::external_body]
fn sha256(data: &[u8]) -> (r: Vec<u8>)
    ensures
        r@ == sha256_of(data@),
        r@.len() == 32,
{
    sha2::Sha256::digest(data).to_vec()
}

/// Relies on rsa::RsaPublicKey::from_public_key_pem (pkcs8::DecodePublicKey):
/// parses an SPKI PEM document; success and the parsed key are functions of
/// the PEM text alone.
#[verifier::external_body]
fn parse_spki_key(pem: &str) -> (r: Option<RsaKey>)
    ensures
        r is Some <==> spki_key_ok(pem@),
        r matches Some(k) ==> k.pem_view() == pem@ && k.is_spki(),
{
    match rsa::RsaPublicKey::from_public_key_pem(pem) {
        Ok(key) => Some(RsaKey { key, pem: pem.to_string(), spki: true }),
        Err(_) => None,
    }
}

/// Relies on rsa::RsaPublicKey::from_pkcs1_pem (pkcs1::DecodeRsaPublicKey):
/// parses a PKCS#1 PEM document; success and the parsed key are functions of
/// the PEM text alone.
#[verifier::external_body]
fn parse_pkcs1_key(pem: &str) -> (r: Option<RsaKey>)
    ensures
        r is Some <==> pkcs1_key_ok(pem@),
        r matches Some(k) ==> k.pem_view() == pem@ && !k.is_spki(),
{
    match rsa::RsaPublicKey::from_pkcs1_pem(pem) {
        Ok(key) => Some(RsaKey { key, pem: pem.to_string(), spki: false }),
        Err(_) => None,
    }
}

/// Relies on rsa::RsaPublicKey::verify with rsa::Pkcs1v15Sign::new::<Sha256>(),
/// whose encoded message carries the SHA-256 digest identifier (sha2's `oid`
/// feature): acceptance is a function of the key, the digest and the
/// signature bytes, and the key is determined by the recorded PEM text.
#[verifier::external_body]
fn rsa_verify(key: &RsaKey, digest: &Vec<u8>, signature: &Vec<u8>) -> (r: bool)
    ensures
        r == rsa_signature_ok(key.pem_view(), key.is_spki(), digest@, signature@),
{
    let padding = rsa::Pkcs1v15Sign::new::<sha2::Sha256>();
    key.key.verify(padding, digest.as_slice(), signature.as_slice()).is_ok()
}

/// What it means for one signature claim to be valid: the key PEM parses
/// (SPKI preferred, PKCS#1 as fallback), the signature is valid base64, and
/// RSA PKCS#1 v1.5 / SHA-256 verification over the UTF-8 bytes of the
/// commitment accepts it.
pub open spec fn signature_valid(
    commitment: Seq<char>,
    signature_b64: Seq<char>,
    pem: Seq<char>,
) -> bool {
    match base64_decoded(signature_b64) {
        Some(sig) => {
            let digest = sha256_of(encode_utf8(commitment));
            if spki_key_ok(pem) {
                rsa_signature_ok(pem, true, digest, sig)
            } else if pkcs1_key_ok(pem) {
                rsa_signature_ok(pem, false, digest, sig)
            } else {
                false
            }
        },
        None => false,
    }
}

/// Verify one asserted signature over one commitment string against one
/// public key. Returns `true` exactly when the claim is valid; all failure
/// branches (bad key, bad base64, bad signature) return `false`.
pub fn verify_signature(commitment: &str, signature_b64: &str, public_key_pem: &str) -> (r: bool)
    ensures
        r == signature_valid(commitment@, signature_b64@, public_key_pem@),
{
    let key = match parse_spki_key(public_key_pem) {
        Some(k) => k,
        None => match parse_pkcs1_key(public_key_pem) {
            Some(k) => k,
            None => {
                return false;
            },
        },
    };
    let digest = sha256(commitment.as_bytes());
    match b64_decode(signature_b64) {
        Some(signature) => rsa_verify(&key, &digest, &signature),
        None => false,
    }
}

} // verus!
