//! The ACME data model: directory URLs, request and response records, the
//! RFC 7807 problem document, and the library's error type.
use vstd::prelude::*;

verus! {

/// One entry of a problem's `subproblems` list (RFC 8555 section 6.7.1): a
/// problem document scoped to one identifier. Subproblems do not nest.
#[derive(Clone)]
pub struct Subproblem {
    /// The problem type URN.
    pub problem_type: Option<String>,
    /// Human-readable detail.
    pub detail: Option<String>,
    /// The identifier this subproblem concerns.
    pub identifier: Option<Identifier>,
}

/// RFC 7807 problem document, the typed error body an ACME server returns.
#[derive(Clone)]
pub struct Problem {
    /// The problem type URN, such as `urn:ietf:params:acme:error:badNonce`.
    pub problem_type: Option<String>,
    /// Human-readable detail.
    pub detail: Option<String>,
    /// Per-identifier subproblems, when the server breaks the failure down.
    pub subproblems: Option<Vec<Subproblem>>,
    /// The HTTP status the server attached to the problem, if any.
    pub status: Option<u16>,
}

/// The errors the protocol core surfaces.
pub enum Error {
    /// An RFC 7807 problem document returned by the server.
    Api(Problem),
    /// Key generation, PKCS#8 parsing or signing failed.
    Crypto,
    /// base64url decoding failed.
    Base64,
    /// The transport failed to send a request or read a response.
    Transport,
    /// JSON encoding or decoding failed.
    Serialization,
    /// A protocol expectation was not met, with a literal message.
    Str(&'static str),
}

/// The endpoint URLs a CA advertises in its directory document.
#[derive(Clone)]
pub struct Directory {
    /// Where a fresh anti-replay nonce is fetched (`HEAD`).
    pub new_nonce: String,
    /// Where accounts are created.
    pub new_account: String,
    /// Where orders are created.
    pub new_order: String,
    /// Where certificates are revoked, if the CA offers it.
    pub revoke_cert: Option<String>,
}

impl Directory {
    /// A field-for-field copy.
    pub fn duplicate(&self) -> (r: Directory)
        ensures
            r == *self,
    {
        Directory {
            new_nonce: self.new_nonce.clone(),
            new_account: self.new_account.clone(),
            new_order: self.new_order.clone(),
            revoke_cert: match &self.revoke_cert {
                Some(s) => Some(s.clone()),
                None => None,
            },
        }
    }
}

/// The portable form of an account: its URL, its key as base64url of the
/// PKCS#8 document, and the directory it was registered under.
#[derive(Clone)]
pub struct AccountCredentials {
    /// The server-assigned account URL (the JWS `kid`).
    pub id: String,
    /// base64url (no padding) of the PKCS#8 DER of the account key.
    pub key_pkcs8: String,
    /// The directory URLs.
    pub urls: Directory,
}

/// The status of an order (RFC 8555 section 7.1.6).
#[derive(Clone, Copy, Debug, PartialEq, Eq, Structural)]
pub enum OrderStatus {
    Pending,
    Ready,
    Processing,
    Valid,
    Invalid,
}

/// The status of an authorization.
#[derive(Clone, Copy, Debug, PartialEq, Eq, Structural)]
pub enum AuthorizationStatus {
    Pending,
    Valid,
    Invalid,
    Revoked,
    Expired,
    Deactivated,
}

/// The status of a challenge.
#[derive(Clone, Copy, Debug, PartialEq, Eq, Structural)]
pub enum ChallengeStatus {
    Pending,
    Processing,
    Valid,
    Invalid,
}

/// The validation methods of RFC 8555 section 8 and RFC 8737.
#[derive(Clone, Copy, Debug, PartialEq, Eq, Structural)]
pub enum ChallengeType {
    Http01,
    Dns01,
    TlsAlpn01,
}

/// An identifier an order is requested for.
#[derive(Clone)]
pub enum Identifier {
    /// A DNS name.
    Dns(String),
}

/// A challenge inside an authorization.
#[derive(Clone)]
pub struct Challenge {
    /// The validation method.
    pub challenge_type: ChallengeType,
    /// Where the challenge is triggered and polled.
    pub url: String,
    /// The server's token, the left half of a key authorization.
    pub token: String,
    /// The last observed status.
    pub status: ChallengeStatus,
}

/// An authorization for one identifier, with its challenges.
#[derive(Clone)]
pub struct Authorization {
    /// The identifier being proven.
    pub identifier: Identifier,
    /// The last observed status.
    pub status: AuthorizationStatus,
    /// The challenges the server offers.
    pub challenges: Vec<Challenge>,
}

/// The server's view of an order.
#[derive(Clone)]
pub struct OrderState {
    /// The last observed status.
    pub status: OrderStatus,
    /// One authorization URL per identifier.
    pub authorizations: Vec<String>,
    /// Where the CSR is submitted.
    pub finalize: String,
    /// Where the issued certificate is fetched, once present.
    pub certificate: Option<String>,
    /// The problem that made the order fail, if any.
    pub error: Option<Problem>,
}

/// A request to create an account (RFC 8555 section 7.3).
#[derive(Clone)]
pub struct NewAccount {
    /// Contact URIs, such as `mailto:` addresses; may be empty.
    pub contact: Vec<String>,
    /// Whether the terms of service are agreed to.
    pub terms_of_service_agreed: bool,
    /// Ask the server only for an existing account, never a new one.
    pub only_return_existing: bool,
}

/// A request to create an order (RFC 8555 section 7.4).
#[derive(Clone)]
pub struct NewOrder {
    /// The identifiers the certificate is requested for.
    pub identifiers: Vec<Identifier>,
}

/// The well-known Let's Encrypt environments.
#[derive(Clone, Copy, Debug, PartialEq, Eq, Structural)]
pub enum LetsEncrypt {
    Production,
    Staging,
}

impl LetsEncrypt {
    /// The directory URL of the environment.
    pub fn url(&self) -> (r: &'static str)
        ensures
            *self == LetsEncrypt::Production ==> r@ == "https://acme-v02.api.letsencrypt.org/directory"@,
            *self == LetsEncrypt::Staging ==> r@ == "https://acme-staging-v02.api.letsencrypt.org/directory"@,
    {
        match self {
            LetsEncrypt::Production => "https://acme-v02.api.letsencrypt.org/directory",
            LetsEncrypt::Staging => "https://acme-staging-v02.api.letsencrypt.org/directory",
        }
    }
}

/// The problem decoder's decision on a response: anything below 400 flows
/// through; otherwise the parsed problem document surfaces as `Error::Api`,
/// or as a literal message when the body held no parseable problem.
pub fn check_status(status: u16, problem: Option<Problem>) -> (r: Result<(), Error>)
    ensures
        status < 400 <==> r is Ok,
        status >= 400 && problem is Some ==> (r matches Err(e) && problem matches Some(p) && e
            == Error::Api(p)),
        status >= 400 && problem is None ==> (r matches Err(e) && e is Str),
{
    if status < 400 {
        Ok(())
    } else {
        match problem {
            Some(p) => Err(Error::Api(p)),
            None => Err(Error::Str("server returned an error without a problem document")),
        }
    }
}

} // verus!
