//! The order: the mutable handle over one certificate issuance. It owns a
//! private nonce slot and the last observed server state; every signed POST
//! consumes the slot and every response refills it from the `Replay-Nonce`
//! header. The server drives the state machine
//! `pending -> ready -> processing -> valid` (with `invalid` terminal); this
//! module takes the decisions, the transport around it does the I/O.
use vstd::prelude::*;

use vstd::utf8::{encode_utf8, valid_utf8};

use crate::account::{account_signed_body, Account};
use crate::payloads::finalize_json;
use crate::types::{Error, OrderState, OrderStatus};

verus! {

/// What fetching the certificate does next, once the cached order state is
/// current.
pub enum CertificateDecision {
    /// The order is still processing; no chain yet.
    NotReady,
    /// The chain is ready at this URL (fetched POST-as-GET).
    Fetch(String),
    /// The order failed; the cached state's `error` holds the server's
    /// problem document.
    FailProblem,
    /// The order is in a state that will never yield a certificate.
    FailInvalidState,
    /// The order is valid but carries no certificate URL.
    FailNoUrl,
}

/// The certificate decision on a current order state: a recorded problem
/// fails first; a processing order is simply not ready; any state other
/// than valid is a dead end; a valid order yields its certificate URL.
pub open spec fn spec_certificate_decision(st: OrderState) -> CertificateDecision {
    match st.error {
        Some(_) => CertificateDecision::FailProblem,
        None => if st.status == OrderStatus::Processing {
            CertificateDecision::NotReady
        } else if st.status != OrderStatus::Valid {
            CertificateDecision::FailInvalidState
        } else {
            match st.certificate {
                Some(u) => CertificateDecision::Fetch(u),
                None => CertificateDecision::FailNoUrl,
            }
        },
    }
}

/// An ACME order: the order URL, the private nonce slot, and the last
/// observed server state.
pub struct Order {
    url: String,
    nonce: Option<String>,
    state: OrderState,
}

impl Order {
    /// The order URL.
    pub closed spec fn spec_url(&self) -> Seq<char> {
        self.url@
    }

    /// The cached nonce, if any.
    pub closed spec fn spec_nonce(&self) -> Option<String> {
        self.nonce
    }

    /// The last observed server state.
    pub closed spec fn spec_state(&self) -> OrderState {
        self.state
    }

    /// Build an order from a successful `newOrder` response: the `Location`
    /// header carries the order URL (without it the order cannot be
    /// addressed), the body its state, and the `Replay-Nonce` header seeds
    /// the nonce slot.
    pub fn from_response(location: Option<String>, nonce: Option<String>, state: OrderState) -> (r:
        Result<Order, Error>)
        ensures
            r is Ok <==> location is Some,
            r matches Ok(o) ==> {
                &&& location matches Some(l) && o.spec_url() == l@
                &&& o.spec_nonce() == nonce
                &&& o.spec_state() == state
            },
            r matches Err(e) ==> e is Str,
    {
        match location {
            Some(url) => Ok(Order { url, nonce, state }),
            None => Err(Error::Str("no order URL found")),
        }
    }

    /// The order URL.
    pub fn url(&self) -> (r: &str)
        ensures
            r@ == self.spec_url(),
    {
        self.url.as_str()
    }

    /// The last known state; refresh to get the server's latest.
    pub fn state(&self) -> (r: &OrderState)
        ensures
            *r == self.spec_state(),
    {
        &self.state
    }

    /// Consume the cached nonce. The slot is empty afterwards: a nonce is
    /// used at most once.
    pub fn take_nonce(&mut self) -> (r: Option<String>)
        ensures
            r == old(self).spec_nonce(),
            final(self).spec_nonce() is None,
            final(self).spec_url() == old(self).spec_url(),
            final(self).spec_state() == old(self).spec_state(),
    {
        self.nonce.take()
    }

    /// Absorb a response that carried a new order state: the nonce slot
    /// becomes exactly the response's `Replay-Nonce`, the state the
    /// response's body.
    pub fn absorb_response(&mut self, nonce: Option<String>, state: OrderState)
        ensures
            final(self).spec_nonce() == nonce,
            final(self).spec_state() == state,
            final(self).spec_url() == old(self).spec_url(),
    {
        self.nonce = nonce;
        self.state = state;
    }

    /// Absorb a response whose body is not an order state (challenge
    /// triggers, authorization fetches): only the nonce slot changes.
    pub fn absorb_nonce(&mut self, nonce: Option<String>)
        ensures
            final(self).spec_nonce() == nonce,
            final(self).spec_state() == old(self).spec_state(),
            final(self).spec_url() == old(self).spec_url(),
    {
        self.nonce = nonce;
    }

    /// Whether fetching the certificate must refresh the cached state
    /// first: only a processing order is polled once more.
    pub fn needs_refresh(&self) -> (r: bool)
        ensures
            r == (self.spec_state().status == OrderStatus::Processing),
    {
        self.state.status == OrderStatus::Processing
    }

    /// Decide what fetching the certificate does next.
    pub fn certificate_decision(&self) -> (r: CertificateDecision)
        ensures
            r == spec_certificate_decision(self.spec_state()),
    {
        match &self.state.error {
            Some(_) => CertificateDecision::FailProblem,
            None => {
                if self.state.status == OrderStatus::Processing {
                    CertificateDecision::NotReady
                } else if !(self.state.status == OrderStatus::Valid) {
                    CertificateDecision::FailInvalidState
                } else {
                    match &self.state.certificate {
                        Some(u) => CertificateDecision::Fetch(u.clone()),
                        None => CertificateDecision::FailNoUrl,
                    }
                }
            },
        }
    }

    /// Build the POST-as-GET that refreshes the order state (also the poll
    /// inside the certificate flow). The payload is the empty string.
    pub fn refresh_request(&self, account: &Account, nonce: &str) -> (r: Result<Vec<u8>, Error>)
        requires
            account.wf(),
        ensures
            r matches Ok(body) ==> account_signed_body(
                body@,
                account.spec_id(),
                account.spec_key().spec_public_key(),
                nonce@,
                self.spec_url(),
                None,
            ),
            r matches Err(e) ==> e is Crypto,
    {
        account.signed_request(None, nonce, self.url.as_str())
    }

    /// Build the finalize POST: `{"csr":"<base64url of the DER>"}`, signed
    /// by the account, to the state's finalize URL.
    pub fn finalize_request(&self, account: &Account, csr_der: &[u8], nonce: &str) -> (r: Result<
        Vec<u8>,
        Error,
    >)
        requires
            account.wf(),
        ensures
            r matches Ok(body) ==> account_signed_body(
                body@,
                account.spec_id(),
                account.spec_key().spec_public_key(),
                nonce@,
                self.spec_state().finalize@,
                Some(finalize_json(csr_der@)),
            ),
            r matches Err(e) ==> e is Crypto,
    {
        let payload = crate::payloads::encode_finalize(csr_der);
        account.signed_request(Some(&payload), nonce, self.state.finalize.as_str())
    }
}

/// Build a POST-as-GET: an authenticated read, signed by the account, whose
/// payload is the empty string (RFC 8555 section 6.3). Authorization,
/// challenge and certificate URLs are all read this way.
pub fn post_as_get_request(account: &Account, nonce: &str, url: &str) -> (r: Result<Vec<u8>, Error>)
    requires
        account.wf(),
    ensures
        r matches Ok(body) ==> account_signed_body(
            body@,
            account.spec_id(),
            account.spec_key().spec_public_key(),
            nonce@,
            url@,
            None,
        ),
        r matches Err(e) ==> e is Crypto,
{
    account.signed_request(None, nonce, url)
}

/// Build the challenge trigger: a POST to the challenge URL whose payload
/// is the empty JSON object `{}` — two bytes, not the empty string
/// (RFC 8555 section 7.5.1).
pub fn challenge_ready_request(account: &Account, nonce: &str, challenge_url: &str) -> (r: Result<
    Vec<u8>,
    Error,
>)
    requires
        account.wf(),
    ensures
        r matches Ok(body) ==> account_signed_body(
            body@,
            account.spec_id(),
            account.spec_key().spec_public_key(),
            nonce@,
            challenge_url@,
            Some(seq![123u8, 125u8]),
        ),
        r matches Err(e) ==> e is Crypto,
{
    let payload = crate::payloads::empty_object_payload();
    account.signed_request(Some(&payload), nonce, challenge_url)
}

/// Relies on std's `String::from_utf8`: it succeeds exactly on valid UTF-8
/// input and returns the string those bytes encode.
#[verifier::external_body]
fn string_from_utf8(bytes: Vec<u8>) -> (r: Result<String, ()>)
    ensures
        r is Ok <==> valid_utf8(bytes@),
        r matches Ok(s) ==> encode_utf8(s@) == bytes@,
{
    match String::from_utf8(bytes) {
        Ok(s) => Ok(s),
        Err(_) => Err(()),
    }
}

/// Decode a fetched certificate chain as UTF-8 PEM text; anything else is
/// a protocol error.
pub fn certificate_body(bytes: Vec<u8>) -> (r: Result<String, Error>)
    ensures
        r is Ok <==> valid_utf8(bytes@),
        r matches Ok(s) ==> encode_utf8(s@) == bytes@,
        r matches Err(e) ==> e is Str,
{
    match string_from_utf8(bytes) {
        Ok(s) => Ok(s),
        Err(_) => Err(Error::Str("unable to decode certificate as UTF-8")),
    }
}

} // verus!
