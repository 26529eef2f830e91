//! The JOSE/JWS envelope (RFC 7515, flattened JSON serialization) as ACME
//! uses it: a protected header carrying the algorithm, exactly one of an
//! embedded JWK or a key identifier, an optional anti-replay nonce, and the
//! request URL; a base64url payload; and a detached signature over
//! `b64url(header) || "." || b64url(payload)`.
use vstd::prelude::*;

use vstd::string::StringSliceAdditionalSpecFns;
use vstd::utf8::encode_utf8;

use crate::json::{json_str, lit_bytes, push_json_str, push_lit};

verus! {

/// The JWS signature algorithms ACME uses: ECDSA P-256 with SHA-256 for
/// account keys, HMAC-SHA-256 for external account binding keys.
#[derive(Clone, Copy, Debug, PartialEq, Eq, Structural)]
pub enum SigningAlgorithm {
    Es256,
    Hs256,
}

/// The `alg` member of a protected header.
pub open spec fn alg_json(a: SigningAlgorithm) -> Seq<u8> {
    match a {
        SigningAlgorithm::Es256 => lit_bytes("\"alg\":\"ES256\""),
        SigningAlgorithm::Hs256 => lit_bytes("\"alg\":\"HS256\""),
    }
}

/// The `nonce` member of a protected header, with its trailing comma; the
/// empty sequence when the header carries no nonce (the EAB inner JWS).
pub open spec fn nonce_json(n: Option<Seq<char>>) -> Seq<u8> {
    match n {
        Some(s) => lit_bytes("\"nonce\":") + json_str(encode_utf8(s)) + lit_bytes(","),
        None => Seq::<u8>::empty(),
    }
}

/// The canonical JWK of a P-256 public key per RFC 7638: members in
/// lexicographic order (`crv`, `kty`, `x`, `y`), no whitespace. `x` and `y`
/// are base64url texts, which never need JSON escaping, so they stand raw.
pub open spec fn jwk_json(x: Seq<char>, y: Seq<char>) -> Seq<u8> {
    lit_bytes("{\"crv\":\"P-256\",\"kty\":\"EC\",\"x\":\"") + encode_utf8(x) + lit_bytes(
        "\",\"y\":\"",
    ) + encode_utf8(y) + lit_bytes("\"}")
}

/// A protected header scoped by a key identifier: exactly the members
/// `alg`, `kid`, optionally `nonce`, and `url`.
pub open spec fn header_json_kid(
    alg: SigningAlgorithm,
    kid: Seq<char>,
    nonce: Option<Seq<char>>,
    url: Seq<char>,
) -> Seq<u8> {
    lit_bytes("{") + alg_json(alg) + lit_bytes(",\"kid\":") + json_str(encode_utf8(kid))
        + lit_bytes(",") + nonce_json(nonce) + lit_bytes("\"url\":") + json_str(encode_utf8(url))
        + lit_bytes("}")
}

/// A protected header with an embedded JWK (the very first `newAccount`
/// request, which has no account URL yet): exactly the members `alg`,
/// `jwk`, optionally `nonce`, and `url`.
pub open spec fn header_json_jwk(
    x: Seq<char>,
    y: Seq<char>,
    nonce: Option<Seq<char>>,
    url: Seq<char>,
) -> Seq<u8> {
    lit_bytes("{\"alg\":\"ES256\",\"jwk\":") + jwk_json(x, y) + lit_bytes(",") + nonce_json(nonce)
        + lit_bytes("\"url\":") + json_str(encode_utf8(url)) + lit_bytes("}")
}

/// The JWS signing input: the ASCII of the base64url header, a dot, the
/// ASCII of the base64url payload.
pub open spec fn signing_input(h64: Seq<char>, p64: Seq<char>) -> Seq<u8> {
    encode_utf8(h64) + lit_bytes(".") + encode_utf8(p64)
}

/// The flattened JWS JSON object `{protected, payload, signature}`. All
/// three members are base64url texts and stand raw between their quotes.
pub open spec fn jose_body(h64: Seq<char>, p64: Seq<char>, s64: Seq<char>) -> Seq<u8> {
    lit_bytes("{\"protected\":\"") + encode_utf8(h64) + lit_bytes("\",\"payload\":\"")
        + encode_utf8(p64) + lit_bytes("\",\"signature\":\"") + encode_utf8(s64) + lit_bytes(
        "\"}",
    )
}

/// The view of an optional borrowed string.
pub open spec fn opt_str_view(n: Option<&str>) -> Option<Seq<char>> {
    match n {
        Some(s) => Some(s@),
        None => None,
    }
}

/// Append the bytes of a string without escaping (for base64url members).
fn push_raw(out: &mut Vec<u8>, s: &str)
    ensures
        final(out)@ == old(out)@ + encode_utf8(s@),
{
    out.extend_from_slice(s.as_bytes());
}

/// Encode a kid-scoped protected header.
pub fn encode_header_kid(alg: SigningAlgorithm, kid: &str, nonce: Option<&str>, url: &str) -> (r:
    Vec<u8>)
    ensures
        r@ == header_json_kid(alg, kid@, opt_str_view(nonce), url@),
{
    let mut out: Vec<u8> = Vec::new();
    push_lit(&mut out, "{");
    match alg {
        SigningAlgorithm::Es256 => push_lit(&mut out, "\"alg\":\"ES256\""),
        SigningAlgorithm::Hs256 => push_lit(&mut out, "\"alg\":\"HS256\""),
    }
    push_lit(&mut out, ",\"kid\":");
    push_json_str(&mut out, kid);
    push_lit(&mut out, ",");
    match nonce {
        Some(n) => {
            push_lit(&mut out, "\"nonce\":");
            push_json_str(&mut out, n);
            push_lit(&mut out, ",");
        },
        None => {},
    }
    push_lit(&mut out, "\"url\":");
    push_json_str(&mut out, url);
    push_lit(&mut out, "}");
    proof {
        assert(out@ =~= header_json_kid(alg, kid@, opt_str_view(nonce), url@));
    }
    out
}

/// Encode the canonical JWK of a public key already split into its
/// base64url coordinates.
pub fn encode_jwk(x: &str, y: &str) -> (r: Vec<u8>)
    ensures
        r@ == jwk_json(x@, y@),
{
    let mut out: Vec<u8> = Vec::new();
    push_lit(&mut out, "{\"crv\":\"P-256\",\"kty\":\"EC\",\"x\":\"");
    push_raw(&mut out, x);
    push_lit(&mut out, "\",\"y\":\"");
    push_raw(&mut out, y);
    push_lit(&mut out, "\"}");
    proof {
        assert(out@ =~= jwk_json(x@, y@));
    }
    out
}

/// Encode a jwk-scoped protected header.
pub fn encode_header_jwk(x: &str, y: &str, nonce: Option<&str>, url: &str) -> (r: Vec<u8>)
    ensures
        r@ == header_json_jwk(x@, y@, opt_str_view(nonce), url@),
{
    let mut out: Vec<u8> = Vec::new();
    push_lit(&mut out, "{\"alg\":\"ES256\",\"jwk\":");
    let jwk = encode_jwk(x, y);
    out.extend_from_slice(jwk.as_slice());
    push_lit(&mut out, ",");
    match nonce {
        Some(n) => {
            push_lit(&mut out, "\"nonce\":");
            push_json_str(&mut out, n);
            push_lit(&mut out, ",");
        },
        None => {},
    }
    push_lit(&mut out, "\"url\":");
    push_json_str(&mut out, url);
    push_lit(&mut out, "}");
    proof {
        assert(out@ =~= header_json_jwk(x@, y@, opt_str_view(nonce), url@));
    }
    out
}

/// Build the JWS signing input from the two base64url texts.
pub fn build_signing_input(h64: &str, p64: &str) -> (r: Vec<u8>)
    ensures
        r@ == signing_input(h64@, p64@),
{
    let mut out: Vec<u8> = Vec::new();
    push_raw(&mut out, h64);
    push_lit(&mut out, ".");
    push_raw(&mut out, p64);
    proof {
        assert(out@ =~= signing_input(h64@, p64@));
    }
    out
}

/// Assemble the flattened JWS JSON object from the three base64url texts.
pub fn build_jose_body(h64: &str, p64: &str, s64: &str) -> (r: Vec<u8>)
    ensures
        r@ == jose_body(h64@, p64@, s64@),
{
    let mut out: Vec<u8> = Vec::new();
    push_lit(&mut out, "{\"protected\":\"");
    push_raw(&mut out, h64);
    push_lit(&mut out, "\",\"payload\":\"");
    push_raw(&mut out, p64);
    push_lit(&mut out, "\",\"signature\":\"");
    push_raw(&mut out, s64);
    push_lit(&mut out, "\"}");
    proof {
        assert(out@ =~= jose_body(h64@, p64@, s64@));
    }
    out
}

} // verus!
