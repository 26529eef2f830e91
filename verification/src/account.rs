//! The account: an ECDSA key, the server-assigned account URL (the JWS
//! `kid`), and the directory it was registered under. Requests signed by an
//! account are kid-scoped; the very first `newAccount` request, which has no
//! account URL yet, embeds the public JWK instead.
use vstd::prelude::*;

use vstd::string::StringExecFns;
use vstd::utf8::encode_utf8;

use crate::b64::{b64url, b64url_decode, b64url_of};
use crate::crypto::{
    hmac_sha256, hmac_sha256_of, p256_verifies, public_key_of, sha256, sha256_of,
};
use crate::jose::{
    build_jose_body, build_signing_input, encode_header_jwk, encode_header_kid, header_json_jwk,
    header_json_kid, jose_body, jwk_json, signing_input, SigningAlgorithm,
};
use crate::key::Key;
use crate::payloads::{encode_new_account, encode_new_order, new_account_json, new_order_json};
use crate::types::{AccountCredentials, Challenge, Directory, Error, NewAccount, NewOrder};

verus! {

/// The base64url `x` coordinate of a key's public point.
pub open spec fn key_x64(k: Key) -> Seq<char> {
    b64url_of(public_key_of(k.spec_pkcs8()).subrange(1, 33))
}

/// The base64url `y` coordinate of a key's public point.
pub open spec fn key_y64(k: Key) -> Seq<char> {
    b64url_of(public_key_of(k.spec_pkcs8()).subrange(33, 65))
}

/// The view of an optional payload: `None` is the POST-as-GET convention.
pub open spec fn opt_bytes(p: Option<&Vec<u8>>) -> Option<Seq<u8>> {
    match p {
        Some(v) => Some(v@),
        None => None,
    }
}

/// The base64url text of a payload. A `None` payload (POST-as-GET) encodes
/// as the empty string, not as an empty object.
pub open spec fn payload_b64(p: Option<Seq<u8>>) -> Seq<char> {
    match p {
        Some(b) => b64url_of(b),
        None => Seq::<char>::empty(),
    }
}

/// Encode an optional payload for the JWS.
pub fn encode_payload(p: Option<&Vec<u8>>) -> (r: String)
    ensures
        r@ == payload_b64(opt_bytes(p)),
{
    match p {
        Some(v) => b64url(v.as_slice()),
        None => String::new(),
    }
}

/// The body of a POST signed by an account key under its kid, over the
/// given nonce, target URL and payload. The ECDSA signature is randomized,
/// so it is bound only by its 64-byte length and by verifying, under the
/// account's public point, over exactly the JWS signing input
/// `b64url(header) || "." || b64url(payload)`.
pub open spec fn account_signed_body(
    body: Seq<u8>,
    kid: Seq<char>,
    pk: Seq<u8>,
    nonce: Seq<char>,
    url: Seq<char>,
    payload: Option<Seq<u8>>,
) -> bool {
    exists|sig: Seq<u8>|
        #![trigger b64url_of(sig)]
        {
            let h64 = b64url_of(header_json_kid(SigningAlgorithm::Es256, kid, Some(nonce), url));
            let p64 = payload_b64(payload);
            &&& sig.len() == 64
            &&& p256_verifies(pk, signing_input(h64, p64), sig)
            &&& body == jose_body(h64, p64, b64url_of(sig))
        }
}

/// An ACME account: immutable after construction.
pub struct Account {
    key: Key,
    id: String,
    urls: Directory,
}

impl Account {
    /// The account key.
    pub closed spec fn spec_key(&self) -> Key {
        self.key
    }

    /// The account URL (the JWS `kid`).
    pub closed spec fn spec_id(&self) -> Seq<char> {
        self.id@
    }

    /// The directory URLs.
    pub closed spec fn spec_urls(&self) -> Directory {
        self.urls
    }

    /// The account is well-formed when its key is.
    pub open spec fn wf(&self) -> bool {
        self.spec_key().wf()
    }

    /// The account URL.
    pub fn id(&self) -> (r: &str)
        ensures
            r@ == self.spec_id(),
    {
        self.id.as_str()
    }

    /// The directory URLs.
    pub fn urls(&self) -> (r: &Directory)
        ensures
            *r == self.spec_urls(),
    {
        &self.urls
    }

    /// The account key.
    pub fn key(&self) -> (r: &Key)
        ensures
            *r == self.spec_key(),
    {
        &self.key
    }

    /// Assemble an account from a key, the server-assigned URL and the
    /// directory. The URL arrives in the `Location` header of a successful
    /// `newAccount` response; without one the account cannot be addressed.
    pub fn from_parts(key: Key, location: Option<String>, urls: Directory) -> (r: Result<
        Account,
        Error,
    >)
        ensures
            r is Ok <==> location is Some,
            r matches Ok(a) ==> {
                &&& a.spec_key() == key
                &&& location matches Some(l) && a.spec_id() == l@
                &&& a.spec_urls() == urls
            },
            r matches Err(e) ==> e is Str,
    {
        match location {
            Some(id) => Ok(Account { key, id, urls }),
            None => Err(Error::Str("failed to get account URL")),
        }
    }

    /// Export the account as portable credentials.
    pub fn credentials(&self) -> (r: AccountCredentials)
        ensures
            r.id@ == self.spec_id(),
            r.urls == self.spec_urls(),
            r.key_pkcs8@ == b64url_of(self.spec_key().spec_pkcs8()),
    {
        AccountCredentials {
            id: self.id.clone(),
            key_pkcs8: b64url(self.key.pkcs8_der().as_slice()),
            urls: self.urls.duplicate(),
        }
    }

    /// Restore an account from exported credentials. The key material must
    /// be canonical base64url — the `Base64` error comes exactly when it is
    /// not — and must parse as a P-256 PKCS#8 document, else the `Crypto`
    /// error; ring's parser also draws randomness, so success on a valid
    /// document is not promised.
    pub fn from_credentials(credentials: AccountCredentials) -> (r: Result<Account, Error>)
        ensures
            r matches Ok(a) ==> {
                &&& a.wf()
                &&& a.spec_id() == credentials.id@
                &&& a.spec_urls() == credentials.urls
                &&& forall|der: Seq<u8>|
                    credentials.key_pkcs8@ == b64url_of(der) ==> a.spec_key().spec_pkcs8() == der
            },
            r matches Err(e) ==> e is Base64 || e is Crypto,
            (r matches Err(e) && e is Base64) <==> !(exists|x: Seq<u8>|
                credentials.key_pkcs8@ == b64url_of(x)),
    {
        let der = match b64url_decode(credentials.key_pkcs8.as_str()) {
            Ok(v) => v,
            Err(_) => {
                return Err(Error::Base64);
            },
        };
        let key = match Key::from_pkcs8_der(der) {
            Ok(k) => k,
            Err(e) => {
                return Err(e);
            },
        };
        Ok(Account { key, id: credentials.id, urls: credentials.urls })
    }

    /// Build the body of a POST signed by this account: kid-scoped header
    /// over the nonce and target URL, then the flattened JWS.
    pub fn signed_request(&self, payload: Option<&Vec<u8>>, nonce: &str, url: &str) -> (r: Result<
        Vec<u8>,
        Error,
    >)
        requires
            self.wf(),
        ensures
            r matches Ok(body) ==> account_signed_body(
                body@,
                self.spec_id(),
                self.spec_key().spec_public_key(),
                nonce@,
                url@,
                opt_bytes(payload),
            ),
            r matches Err(e) ==> e is Crypto,
    {
        let header = encode_header_kid(SigningAlgorithm::Es256, self.id.as_str(), Some(nonce), url);
        let h64 = b64url(header.as_slice());
        let p64 = encode_payload(payload);
        let input = build_signing_input(h64.as_str(), p64.as_str());
        let sig = match self.key.sign(input.as_slice()) {
            Ok(s) => s,
            Err(e) => {
                return Err(e);
            },
        };
        let s64 = b64url(sig.as_slice());
        let body = build_jose_body(h64.as_str(), p64.as_str(), s64.as_str());
        proof {
            let h64s = b64url_of(
                header_json_kid(SigningAlgorithm::Es256, self.spec_id(), Some(nonce@), url@),
            );
            let p64s = payload_b64(opt_bytes(payload));
            assert(sig@.len() == 64 && p256_verifies(
                self.spec_key().spec_public_key(),
                signing_input(h64s, p64s),
                sig@,
            ) && body@ == jose_body(h64s, p64s, b64url_of(sig@)));
        }
        Ok(body)
    }

    /// Derive the key authorization for a challenge: the challenge token,
    /// a dot, and the account key's thumbprint.
    pub fn key_authorization(&self, challenge: &Challenge) -> (r: KeyAuthorization)
        ensures
            r@ == challenge.token@ + "."@ + self.spec_key().spec_thumb(),
    {
        KeyAuthorization::new(challenge, &self.key)
    }

    /// Build the body of the `newOrder` POST for this account.
    pub fn new_order_request(&self, order: &NewOrder, nonce: &str) -> (r: Result<Vec<u8>, Error>)
        requires
            self.wf(),
        ensures
            r matches Ok(body) ==> account_signed_body(
                body@,
                self.spec_id(),
                self.spec_key().spec_public_key(),
                nonce@,
                self.spec_urls().new_order@,
                Some(new_order_json(order.identifiers@)),
            ),
            r matches Err(e) ==> e is Crypto,
    {
        let payload = encode_new_order(order);
        let url = self.urls.new_order.clone();
        self.signed_request(Some(&payload), nonce, url.as_str())
    }
}

/// Restoring an account from its exported credentials preserves the id, the
/// directory URLs and the key thumbprint: for any account `a`, credentials
/// `c` as `credentials` exports them, and account `b` as `from_credentials`
/// restores them, the identifying parts of `b` equal those of `a`.
pub proof fn lemma_credentials_round_trip(a: Account, c: AccountCredentials, b: Account)
    requires
        a.wf(),
        c.id@ == a.spec_id(),
        c.urls == a.spec_urls(),
        c.key_pkcs8@ == b64url_of(a.spec_key().spec_pkcs8()),
        b.wf(),
        b.spec_id() == c.id@,
        b.spec_urls() == c.urls,
        forall|der: Seq<u8>|
            c.key_pkcs8@ == b64url_of(der) ==> b.spec_key().spec_pkcs8() == der,
    ensures
        b.spec_id() == a.spec_id(),
        b.spec_urls() == a.spec_urls(),
        b.spec_key().spec_thumb() == a.spec_key().spec_thumb(),
{
    assert(b.spec_key().spec_pkcs8() == a.spec_key().spec_pkcs8());
    a.spec_key().lemma_wf_thumb();
    b.spec_key().lemma_wf_thumb();
}

/// A pre-shared HMAC-SHA-256 key that links a new account to an external
/// CA account (RFC 8555 section 7.3.4).
pub struct ExternalAccountKey {
    id: String,
    key: Vec<u8>,
}

/// The external account binding: an inner JWS over the account's public
/// JWK, signed with the EAB HMAC key, kid-scoped by the EAB id, bound to
/// the `newAccount` URL, with no nonce. Unlike ECDSA, the HMAC signature is
/// deterministic, so the whole object is pinned.
pub open spec fn eab_binding_json(
    eab_id: Seq<char>,
    eab_key: Seq<u8>,
    key: Key,
    url: Seq<char>,
) -> Seq<u8> {
    let h64 = b64url_of(header_json_kid(SigningAlgorithm::Hs256, eab_id, None, url));
    let p64 = b64url_of(jwk_json(key_x64(key), key_y64(key)));
    jose_body(h64, p64, b64url_of(hmac_sha256_of(eab_key, signing_input(h64, p64))))
}

/// In an external account binding, the signature is the HMAC-SHA-256 tag,
/// under the EAB key, over exactly the JWS signing input
/// `b64url(header) || "." || b64url(payload)`, so a holder of the key can
/// verify it by recomputation.
pub proof fn lemma_eab_signature_over_signing_input(
    eab_id: Seq<char>,
    eab_key: Seq<u8>,
    key: Key,
    url: Seq<char>,
)
    ensures
        ({
            let h64 = b64url_of(header_json_kid(SigningAlgorithm::Hs256, eab_id, None, url));
            let p64 = b64url_of(jwk_json(key_x64(key), key_y64(key)));
            eab_binding_json(eab_id, eab_key, key, url) == jose_body(
                h64,
                p64,
                b64url_of(hmac_sha256_of(eab_key, signing_input(h64, p64))),
            )
        }),
{
}

impl ExternalAccountKey {
    /// The external key identifier.
    pub closed spec fn spec_id(&self) -> Seq<char> {
        self.id@
    }

    /// The HMAC key bytes.
    pub closed spec fn spec_key(&self) -> Seq<u8> {
        self.key@
    }

    /// Create a new external account key.
    pub fn new(id: String, key_value: &[u8]) -> (r: Self)
        ensures
            r.spec_id() == id@,
            r.spec_key() == key_value@,
    {
        let mut key: Vec<u8> = Vec::new();
        key.extend_from_slice(key_value);
        proof {
            assert(key@ =~= key_value@);
        }
        ExternalAccountKey { id, key }
    }

    /// Sign a message with the EAB key: the deterministic HMAC-SHA-256
    /// tag, which verifies under the key bytes this value was built from.
    pub fn sign(&self, msg: &[u8]) -> (r: Vec<u8>)
        ensures
            r@ == hmac_sha256_of(self.spec_key(), msg@),
            r@.len() == 32,
    {
        hmac_sha256(self.key.as_slice(), msg)
    }

    /// Build the external account binding for a fresh account key.
    pub fn binding(&self, key: &Key, new_account_url: &str) -> (r: Vec<u8>)
        requires
            key.wf(),
        ensures
            r@ == eab_binding_json(self.spec_id(), self.spec_key(), *key, new_account_url@),
    {
        let header = encode_header_kid(
            SigningAlgorithm::Hs256,
            self.id.as_str(),
            None,
            new_account_url,
        );
        let h64 = b64url(header.as_slice());
        let (x, y) = key.coordinates();
        let jwk = crate::jose::encode_jwk(x.as_str(), y.as_str());
        let p64 = b64url(jwk.as_slice());
        let input = build_signing_input(h64.as_str(), p64.as_str());
        let tag = self.sign(input.as_slice());
        let s64 = b64url(tag.as_slice());
        build_jose_body(h64.as_str(), p64.as_str(), s64.as_str())
    }
}

/// The body of the `newAccount` POST: the payload (with the optional
/// external account binding embedded) signed by the fresh key under a
/// jwk-scoped header, since no account URL exists yet.
pub fn create_account_request(
    key: &Key,
    acct: &NewAccount,
    eab: Option<&ExternalAccountKey>,
    nonce: &str,
    new_account_url: &str,
) -> (r: Result<Vec<u8>, Error>)
    requires
        key.wf(),
    ensures
        r matches Ok(body) ==> exists|sig: Seq<u8>|
            #![trigger b64url_of(sig)]
            {
                let h64 = b64url_of(
                    header_json_jwk(key_x64(*key), key_y64(*key), Some(nonce@), new_account_url@),
                );
                let p64 = b64url_of(
                    new_account_json(
                        acct.contact@,
                        acct.terms_of_service_agreed,
                        acct.only_return_existing,
                        match eab {
                            Some(e) => Some(
                                eab_binding_json(e.spec_id(), e.spec_key(), *key, new_account_url@),
                            ),
                            None => None,
                        },
                    ),
                );
                &&& sig.len() == 64
                &&& p256_verifies(public_key_of(key.spec_pkcs8()), signing_input(h64, p64), sig)
                &&& body@ == jose_body(h64, p64, b64url_of(sig))
            },
        r matches Err(e) ==> e is Crypto,
{
    let binding = match eab {
        Some(e) => Some(e.binding(key, new_account_url)),
        None => None,
    };
    let payload = match &binding {
        Some(b) => encode_new_account(acct, Some(b)),
        None => encode_new_account(acct, None),
    };
    let (x, y) = key.coordinates();
    let header = encode_header_jwk(x.as_str(), y.as_str(), Some(nonce), new_account_url);
    let h64 = b64url(header.as_slice());
    let p64 = b64url(payload.as_slice());
    let input = build_signing_input(h64.as_str(), p64.as_str());
    let sig = match key.sign(input.as_slice()) {
        Ok(s) => s,
        Err(e) => {
            return Err(e);
        },
    };
    let s64 = b64url(sig.as_slice());
    let body = build_jose_body(h64.as_str(), p64.as_str(), s64.as_str());
    proof {
        key.lemma_wf_thumb();
        let h64s = b64url_of(
            header_json_jwk(key_x64(*key), key_y64(*key), Some(nonce@), new_account_url@),
        );
        let p64s = b64url_of(
            new_account_json(
                acct.contact@,
                acct.terms_of_service_agreed,
                acct.only_return_existing,
                match eab {
                    Some(e) => Some(
                        eab_binding_json(e.spec_id(), e.spec_key(), *key, new_account_url@),
                    ),
                    None => None,
                },
            ),
        );
        assert(sig@.len() == 64 && p256_verifies(
            public_key_of(key.spec_pkcs8()),
            signing_input(h64s, p64s),
            sig@,
        ) && body@ == jose_body(h64s, p64s, b64url_of(sig@)));
    }
    Ok(body)
}

/// The challenge response value: `token || "." || thumbprint` (RFC 8555
/// section 8.1).
pub struct KeyAuthorization(String);

impl View for KeyAuthorization {
    type V = Seq<char>;

    closed spec fn view(&self) -> Seq<char> {
        self.0@
    }
}

impl KeyAuthorization {
    /// Derive the key authorization for a challenge from the account key.
    pub fn new(challenge: &Challenge, key: &Key) -> (r: KeyAuthorization)
        ensures
            r@ == challenge.token@ + "."@ + key.spec_thumb(),
    {
        let mut s = challenge.token.clone();
        s.append(".");
        s.append(key.thumbprint());
        KeyAuthorization(s)
    }

    /// The key authorization value, the HTTP-01 challenge response.
    pub fn as_str(&self) -> (r: &str)
        ensures
            r@ == self@,
    {
        self.0.as_str()
    }

    /// The SHA-256 digest of the key authorization, the TLS-ALPN-01
    /// challenge certificate's content (RFC 8737 section 3).
    pub fn digest(&self) -> (r: Vec<u8>)
        ensures
            r@ == sha256_of(encode_utf8(self@)),
            r@.len() == 32,
    {
        sha256(self.0.as_str().as_bytes())
    }

    /// The base64url SHA-256 digest of the key authorization, the DNS-01
    /// challenge record value.
    pub fn dns_value(&self) -> (r: String)
        ensures
            r@ == b64url_of(sha256_of(encode_utf8(self@))),
    {
        let d = self.digest();
        b64url(d.as_slice())
    }
}

} // verus!
