//! The cryptographic primitives the protocol uses, through the `ring` crate:
//! SHA-256, HMAC-SHA-256 and ECDSA P-256 signing with PKCS#8 key documents.
use vstd::prelude::*;

use ring::rand::SystemRandom;
use ring::signature::{EcdsaKeyPair, KeyPair, ECDSA_P256_SHA256_FIXED_SIGNING};

verus! {

#[verifier::external_type_specification]
#[verifier::external_body]
pub struct ExSystemRandom(SystemRandom);

/// The SHA-256 digest of a byte sequence.
pub uninterp spec fn sha256_of(b: Seq<u8>) -> Seq<u8>;

/// Relies on ring's `digest::digest` with `SHA256`: the digest is a function
/// of the input alone, 32 bytes long.
#[verifier::external_body]
pub(crate) fn sha256(b: &[u8]) -> (r: Vec<u8>)
    ensures
        r@ == sha256_of(b@),
        r@.len() == 32,
{
    ring::digest::digest(&ring::digest::SHA256, b).as_ref().to_vec()
}

/// The HMAC-SHA-256 tag over a message, under a key given by its bytes.
pub uninterp spec fn hmac_sha256_of(key: Seq<u8>, msg: Seq<u8>) -> Seq<u8>;

/// Relies on ring's `hmac::sign` (the key built from its bytes with
/// `hmac::Key::new`): the tag is a function of the key bytes and the message
/// alone, 32 bytes long for HMAC-SHA256.
#[verifier::external_body]
pub(crate) fn hmac_sha256(key: &[u8], msg: &[u8]) -> (r: Vec<u8>)
    ensures
        r@ == hmac_sha256_of(key@, msg@),
        r@.len() == 32,
{
    let k = ring::hmac::Key::new(ring::hmac::HMAC_SHA256, key);
    ring::hmac::sign(&k, msg).as_ref().to_vec()
}

/// Whether ring's PKCS#8 parser accepts the document as an unencrypted
/// PKCS#8 v1 P-256 key pair. Parsing is a function of the document alone.
pub uninterp spec fn p256_pkcs8_wf(der: Seq<u8>) -> bool;

/// The uncompressed public point (`0x04 || X || Y`, 65 bytes) of the P-256
/// key pair a PKCS#8 document encodes, where ring accepts the document.
pub uninterp spec fn public_key_of(der: Seq<u8>) -> Seq<u8>;

/// Whether a 64-byte IEEE P1363 ECDSA signature verifies over a message
/// under an uncompressed P-256 public point, as ring's
/// `ECDSA_P256_SHA256_FIXED` verification decides it; a function of the
/// three values alone.
pub uninterp spec fn p256_verifies(pk: Seq<u8>, msg: Seq<u8>, sig: Seq<u8>) -> bool;

/// Relies on ring's `EcdsaKeyPair::from_pkcs8` (success requires the parser
/// to accept the document) and `KeyPair::public_key` (the uncompressed
/// point, 65 bytes for P-256, determined by the document).
#[verifier::external_body]
pub(crate) fn p256_public_key(der: &[u8]) -> (r: Result<Vec<u8>, ()>)
    ensures
        r is Ok ==> {
            &&& p256_pkcs8_wf(der@)
            &&& r->Ok_0@ == public_key_of(der@)
            &&& r->Ok_0@.len() == 65
        },
{
    match EcdsaKeyPair::from_pkcs8(&ECDSA_P256_SHA256_FIXED_SIGNING, der) {
        Ok(pair) => Ok(pair.public_key().as_ref().to_vec()),
        Err(_) => Err(()),
    }
}

/// Relies on ring's `SystemRandom::new`.
#[verifier::external_body]
pub(crate) fn new_system_random() -> SystemRandom {
    SystemRandom::new()
}

/// Relies on ring's `EcdsaKeyPair::generate_pkcs8`: a fresh P-256 key pair
/// as an unencrypted PKCS#8 v1 document, which `from_pkcs8` accepts. The
/// key itself is random, so nothing more is stated.
#[verifier::external_body]
pub(crate) fn p256_generate_pkcs8(rng: &SystemRandom) -> (r: Result<Vec<u8>, ()>)
    ensures
        r matches Ok(doc) ==> p256_pkcs8_wf(doc@),
{
    match EcdsaKeyPair::generate_pkcs8(&ECDSA_P256_SHA256_FIXED_SIGNING, rng) {
        Ok(doc) => Ok(doc.as_ref().to_vec()),
        Err(_) => Err(()),
    }
}

/// Relies on ring's `EcdsaKeyPair::from_pkcs8` and `EcdsaKeyPair::sign`
/// with the P-256/SHA-256 fixed-length algorithm: on success the signature
/// is 64 bytes (IEEE P1363 `r || s`) and verifies, under the key pair's
/// public point, with the matching `ECDSA_P256_SHA256_FIXED` verification
/// algorithm. The signature is randomized, so nothing ties its value.
#[verifier::external_body]
pub(crate) fn p256_sign(der: &[u8], rng: &SystemRandom, msg: &[u8]) -> (r: Result<Vec<u8>, ()>)
    ensures
        r matches Ok(sig) ==> {
            &&& sig@.len() == 64
            &&& p256_verifies(public_key_of(der@), msg@, sig@)
        },
{
    let pair = match EcdsaKeyPair::from_pkcs8(&ECDSA_P256_SHA256_FIXED_SIGNING, der) {
        Ok(pair) => pair,
        Err(_) => return Err(()),
    };
    match pair.sign(rng, msg) {
        Ok(sig) => Ok(sig.as_ref().to_vec()),
        Err(_) => Err(()),
    }
}

} // verus!
