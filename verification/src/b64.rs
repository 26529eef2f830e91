//! URL-safe base64 without padding (RFC 4648 section 5), through the
//! `base64` crate. Every ACME text encoding in this crate goes through these
//! two functions.
use vstd::prelude::*;

use base64::prelude::{Engine, BASE64_URL_SAFE_NO_PAD};

verus! {

/// The URL-safe, unpadded base64 encoding of a byte sequence, as the
/// `base64` crate's `URL_SAFE_NO_PAD` engine computes it.
pub uninterp spec fn b64url_of(b: Seq<u8>) -> Seq<char>;

/// Relies on base64's `Engine::encode` with the `URL_SAFE_NO_PAD` engine:
/// the encoding is a function of the input bytes alone, and the empty input
/// encodes to the empty string.
#[verifier::external_body]
pub(crate) fn b64url(b: &[u8]) -> (r: String)
    ensures
        r@ == b64url_of(b@),
        b@.len() == 0 ==> r@.len() == 0,
{
    BASE64_URL_SAFE_NO_PAD.encode(b)
}

/// Relies on base64's `Engine::decode` with the `URL_SAFE_NO_PAD` engine:
/// decoding inverts encoding, so on the encoding of `x` it returns exactly
/// `x`; and since this engine refuses padding and non-zero trailing bits,
/// it accepts only canonical encodings, so whatever it returns re-encodes
/// to the input.
#[verifier::external_body]
pub(crate) fn b64url_decode(s: &str) -> (r: Result<Vec<u8>, ()>)
    ensures
        forall|x: Seq<u8>| s@ == b64url_of(x) ==> r is Ok && r->Ok_0@ == x,
        r matches Ok(v) ==> s@ == b64url_of(v@),
{
    match BASE64_URL_SAFE_NO_PAD.decode(s) {
        Ok(v) => Ok(v),
        Err(_) => Err(()),
    }
}

} // verus!
