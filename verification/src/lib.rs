//! Core protocol logic for an ACME (RFC 8555) client: JOSE/JWS request
//! construction over ECDSA P-256 and HMAC-SHA-256, account key thumbprints,
//! key authorizations, nonce discipline and the order state machine.
//!
//! All I/O (the HTTP transport) lives outside this crate; the functions here
//! build request bodies as plain bytes and absorb already-parsed responses.
use vstd::prelude::*;

pub mod account;
pub mod b64;
pub mod crypto;
pub mod jose;
pub mod json;
pub mod key;
pub mod order;
pub mod payloads;
pub mod types;

pub use account::{
    create_account_request, eab_binding_json, lemma_credentials_round_trip, Account,
    ExternalAccountKey, KeyAuthorization,
};
pub use key::{thumbprint_of, Key};
pub use order::{
    certificate_body, challenge_ready_request, post_as_get_request, CertificateDecision, Order,
};
pub use payloads::empty_object_payload;
pub use types::{
    check_status, AccountCredentials, Authorization, AuthorizationStatus, Challenge,
    ChallengeStatus, ChallengeType, Directory, Error, Identifier, LetsEncrypt, NewAccount,
    NewOrder, OrderState, OrderStatus, Problem, Subproblem,
};
