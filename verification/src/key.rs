//! The account key: an ECDSA P-256 key pair held as its PKCS#8 document
//! (retained for credential export) with its RFC 7638 JWK thumbprint
//! precomputed.
use vstd::prelude::*;

use ring::rand::SystemRandom;

use crate::b64::{b64url, b64url_of};
use crate::crypto::{
    new_system_random, p256_generate_pkcs8, p256_pkcs8_wf, p256_public_key, p256_sign,
    p256_verifies, public_key_of, sha256, sha256_of,
};
use crate::jose::jwk_json;
use crate::types::Error;

verus! {

/// The RFC 7638 JWK thumbprint, base64url-encoded, of the P-256 key a
/// PKCS#8 document encodes: SHA-256 over the canonical JWK JSON
/// `{"crv":"P-256","kty":"EC","x":"<b64url(X)>","y":"<b64url(Y)>"}`, the
/// members in that lexicographic order with no whitespace, where `X` and
/// `Y` are the two 32-byte coordinates of the uncompressed public point.
pub open spec fn thumbprint_of(der: Seq<u8>) -> Seq<char> {
    b64url_of(
        sha256_of(
            jwk_json(
                b64url_of(public_key_of(der).subrange(1, 33)),
                b64url_of(public_key_of(der).subrange(33, 65)),
            ),
        ),
    )
}

/// An ECDSA P-256 account key.
pub struct Key {
    rng: SystemRandom,
    pkcs8_der: Vec<u8>,
    public_key: Vec<u8>,
    thumb: String,
}

impl Key {
    /// The PKCS#8 document this key was built from.
    pub closed spec fn spec_pkcs8(&self) -> Seq<u8> {
        self.pkcs8_der@
    }

    /// The uncompressed public point (`0x04 || X || Y`).
    pub closed spec fn spec_public_key(&self) -> Seq<u8> {
        self.public_key@
    }

    /// The precomputed base64url JWK thumbprint.
    pub closed spec fn spec_thumb(&self) -> Seq<char> {
        self.thumb@
    }

    /// The key's fields agree: the document is one ring accepts, the public
    /// point belongs to it, and the thumbprint is that point's RFC 7638
    /// digest.
    pub closed spec fn wf(&self) -> bool {
        &&& p256_pkcs8_wf(self.pkcs8_der@)
        &&& self.public_key@ == public_key_of(self.pkcs8_der@)
        &&& self.public_key@.len() == 65
        &&& self.thumb@ == thumbprint_of(self.pkcs8_der@)
    }

    /// A well-formed key's thumbprint is the RFC 7638 digest of its
    /// retained PKCS#8 document.
    pub proof fn lemma_wf_thumb(&self)
        requires
            self.wf(),
        ensures
            self.spec_thumb() == thumbprint_of(self.spec_pkcs8()),
            self.spec_public_key() == public_key_of(self.spec_pkcs8()),
    {
    }

    /// The base64url coordinates of the public point, for JWK members.
    pub fn coordinates(&self) -> (r: (String, String))
        requires
            self.wf(),
        ensures
            r.0@ == b64url_of(public_key_of(self.spec_pkcs8()).subrange(1, 33)),
            r.1@ == b64url_of(public_key_of(self.spec_pkcs8()).subrange(33, 65)),
    {
        let x = b64url(&self.public_key.as_slice()[1..33]);
        let y = b64url(&self.public_key.as_slice()[33..65]);
        (x, y)
    }

    /// The precomputed thumbprint.
    pub fn thumbprint(&self) -> (r: &str)
        ensures
            r@ == self.spec_thumb(),
    {
        self.thumb.as_str()
    }

    /// The uncompressed public point, for signature verification and JWKs.
    pub fn public_key(&self) -> (r: &Vec<u8>)
        ensures
            r@ == self.spec_public_key(),
    {
        &self.public_key
    }

    /// Retained PKCS#8 document.
    pub fn pkcs8_der(&self) -> (r: &Vec<u8>)
        ensures
            r@ == self.spec_pkcs8(),
    {
        &self.pkcs8_der
    }

    /// Parse a PKCS#8 document into a key, computing the thumbprint. A
    /// document the parser refuses is rejected; acceptance also needs
    /// ring's internal randomness, so success is not promised.
    pub fn from_pkcs8_der(pkcs8_der: Vec<u8>) -> (r: Result<Key, Error>)
        ensures
            r matches Ok(k) ==> {
                &&& k.wf()
                &&& k.spec_pkcs8() == pkcs8_der@
                &&& p256_pkcs8_wf(pkcs8_der@)
            },
            r matches Err(e) ==> e is Crypto,
    {
        let public_key = match p256_public_key(pkcs8_der.as_slice()) {
            Ok(pk) => pk,
            Err(_) => {
                return Err(Error::Crypto);
            },
        };
        let x = b64url(&public_key.as_slice()[1..33]);
        let y = b64url(&public_key.as_slice()[33..65]);
        let jwk = crate::jose::encode_jwk(x.as_str(), y.as_str());
        let digest = sha256(jwk.as_slice());
        let thumb = b64url(digest.as_slice());
        Ok(Key { rng: new_system_random(), pkcs8_der, public_key, thumb })
    }

    /// Generate a fresh P-256 key pair.
    pub fn generate() -> (r: Result<Key, Error>)
        ensures
            r matches Ok(k) ==> k.wf(),
            r matches Err(e) ==> e is Crypto,
    {
        let rng = new_system_random();
        let pkcs8 = match p256_generate_pkcs8(&rng) {
            Ok(doc) => doc,
            Err(_) => {
                return Err(Error::Crypto);
            },
        };
        Key::from_pkcs8_der(pkcs8)
    }

    /// Sign a message with the account key: a 64-byte IEEE P1363 ECDSA
    /// signature that verifies under this key's public point. The
    /// signature is randomized, so nothing ties its value.
    pub fn sign(&self, msg: &[u8]) -> (r: Result<Vec<u8>, Error>)
        requires
            self.wf(),
        ensures
            r matches Ok(sig) ==> {
                &&& sig@.len() == 64
                &&& p256_verifies(self.spec_public_key(), msg@, sig@)
            },
            r matches Err(e) ==> e is Crypto,
    {
        match p256_sign(self.pkcs8_der.as_slice(), &self.rng, msg) {
            Ok(sig) => Ok(sig),
            Err(_) => Err(Error::Crypto),
        }
    }
}

} // verus!
