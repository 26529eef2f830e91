//! End-to-end checks of the protocol core against independent
//! recomputations with `ring`, `base64` and `serde_json`.
use acme_core::{
    certificate_body, challenge_ready_request, check_status, create_account_request,
    post_as_get_request, Account, AccountCredentials, CertificateDecision, Challenge,
    ChallengeStatus, ChallengeType, Directory, Error, ExternalAccountKey, Identifier, Key,
    KeyAuthorization, LetsEncrypt, NewAccount, NewOrder, Order, OrderState, OrderStatus, Problem,
    Subproblem,
};
use base64::prelude::{Engine, BASE64_URL_SAFE_NO_PAD};
use ring::digest::{digest, SHA256};

fn test_directory() -> Directory {
    Directory {
        new_nonce: String::from("https://ca.test/new-nonce"),
        new_account: String::from("https://ca.test/new-acct"),
        new_order: String::from("https://ca.test/new-order"),
        revoke_cert: None,
    }
}

fn test_key() -> Key {
    Key::generate().ok().unwrap()
}

fn test_account() -> Account {
    Account::from_parts(
        test_key(),
        Some(String::from("https://ca.test/acct/1")),
        test_directory(),
    )
    .ok()
    .unwrap()
}

fn test_challenge(token: &str) -> Challenge {
    Challenge {
        challenge_type: ChallengeType::Http01,
        url: String::from("https://ca.test/chall/1"),
        token: String::from(token),
        status: ChallengeStatus::Pending,
    }
}

fn order_state(status: OrderStatus) -> OrderState {
    OrderState {
        status,
        authorizations: vec![String::from("https://ca.test/authz/1")],
        finalize: String::from("https://ca.test/order/7/finalize"),
        certificate: None,
        error: None,
    }
}

fn body_json(body: &[u8]) -> serde_json::Value {
    serde_json::from_slice(body).expect("request body must be valid JSON")
}

#[test]
fn thumbprint_matches_rfc7638_recomputation() {
    let key = test_key();
    let pk = key.public_key().clone();
    assert_eq!(pk.len(), 65);
    assert_eq!(pk[0], 0x04);
    let x = BASE64_URL_SAFE_NO_PAD.encode(&pk[1..33]);
    let y = BASE64_URL_SAFE_NO_PAD.encode(&pk[33..65]);
    let canonical = format!(
        "{{\"crv\":\"P-256\",\"kty\":\"EC\",\"x\":\"{}\",\"y\":\"{}\"}}",
        x, y
    );
    let expected = BASE64_URL_SAFE_NO_PAD.encode(digest(&SHA256, canonical.as_bytes()));
    assert_eq!(key.thumbprint(), expected);
}

#[test]
fn key_authorization_is_token_dot_thumbprint() {
    let key = test_key();
    let challenge = test_challenge("TOK");
    let ka = KeyAuthorization::new(&challenge, &key);
    let expected = format!("TOK.{}", key.thumbprint());
    assert_eq!(ka.as_str(), expected);
}

#[test]
fn dns_value_is_b64url_sha256_of_key_authorization() {
    let key = test_key();
    let challenge = test_challenge("TOK");
    let ka = KeyAuthorization::new(&challenge, &key);
    let expected = BASE64_URL_SAFE_NO_PAD.encode(digest(&SHA256, ka.as_str().as_bytes()));
    assert_eq!(ka.dns_value(), expected);
    assert_eq!(ka.digest().as_slice(), digest(&SHA256, ka.as_str().as_bytes()).as_ref());
}

#[test]
fn credentials_round_trip_preserves_identity() {
    let account = test_account();
    let creds = account.credentials();
    assert_eq!(creds.id, "https://ca.test/acct/1");
    let restored = Account::from_credentials(creds).ok().unwrap();
    assert_eq!(restored.id(), account.id());
    assert_eq!(restored.urls().new_order, account.urls().new_order);
    assert_eq!(restored.key().thumbprint(), account.key().thumbprint());
    assert_eq!(restored.key().pkcs8_der(), account.key().pkcs8_der());
}

#[test]
fn from_credentials_rejects_bad_base64() {
    let creds = AccountCredentials {
        id: String::from("https://ca.test/acct/1"),
        key_pkcs8: String::from("!!!not base64url!!!"),
        urls: test_directory(),
    };
    assert!(matches!(Account::from_credentials(creds), Err(Error::Base64)));
}

#[test]
fn account_signed_request_header_and_signature_verify() {
    let account = test_account();
    let body = account
        .signed_request(None, "AAAA", "https://ca.test/order/7")
        .ok()
        .unwrap();
    let v = body_json(&body);
    let protected = v["protected"].as_str().unwrap();
    let payload = v["payload"].as_str().unwrap();
    let signature = v["signature"].as_str().unwrap();

    // POST-as-GET: the payload is the empty string, not `{}`.
    assert_eq!(payload, "");

    let header_bytes = BASE64_URL_SAFE_NO_PAD.decode(protected).unwrap();
    let header: serde_json::Value = serde_json::from_slice(&header_bytes).unwrap();
    assert_eq!(header["alg"].as_str().unwrap(), "ES256");
    assert_eq!(header["kid"].as_str().unwrap(), "https://ca.test/acct/1");
    assert_eq!(header["nonce"].as_str().unwrap(), "AAAA");
    assert_eq!(header["url"].as_str().unwrap(), "https://ca.test/order/7");
    // kid-scoped: no embedded JWK.
    assert!(header.get("jwk").is_none());

    // The detached signature verifies under the account's public key over
    // b64url(header) || "." || b64url(payload).
    let signing_input = format!("{}.{}", protected, payload);
    let sig = BASE64_URL_SAFE_NO_PAD.decode(signature).unwrap();
    assert_eq!(sig.len(), 64);
    let pk = ring::signature::UnparsedPublicKey::new(
        &ring::signature::ECDSA_P256_SHA256_FIXED,
        account.key().public_key().as_slice(),
    );
    pk.verify(signing_input.as_bytes(), &sig)
        .expect("ES256 signature must verify");
}

#[test]
fn new_account_request_is_jwk_scoped() {
    let key = test_key();
    let acct = NewAccount {
        contact: vec![String::from("mailto:x@y")],
        terms_of_service_agreed: true,
        only_return_existing: false,
    };
    let body = create_account_request(&key, &acct, None, "AAAA", "https://ca.test/new-acct")
        .ok()
        .unwrap();
    let v = body_json(&body);
    let header_bytes = BASE64_URL_SAFE_NO_PAD
        .decode(v["protected"].as_str().unwrap())
        .unwrap();
    let header: serde_json::Value = serde_json::from_slice(&header_bytes).unwrap();
    assert_eq!(header["alg"].as_str().unwrap(), "ES256");
    assert_eq!(header["nonce"].as_str().unwrap(), "AAAA");
    assert_eq!(header["url"].as_str().unwrap(), "https://ca.test/new-acct");
    // jwk-scoped: an embedded key, no kid.
    assert!(header.get("kid").is_none());
    assert_eq!(header["jwk"]["kty"].as_str().unwrap(), "EC");
    assert_eq!(header["jwk"]["crv"].as_str().unwrap(), "P-256");

    let payload_bytes = BASE64_URL_SAFE_NO_PAD
        .decode(v["payload"].as_str().unwrap())
        .unwrap();
    let payload: serde_json::Value = serde_json::from_slice(&payload_bytes).unwrap();
    assert_eq!(payload["termsOfServiceAgreed"].as_bool().unwrap(), true);
    assert_eq!(payload["onlyReturnExisting"].as_bool().unwrap(), false);
    assert_eq!(payload["contact"][0].as_str().unwrap(), "mailto:x@y");
    assert!(payload.get("externalAccountBinding").is_none());
}

#[test]
fn eab_binding_has_hs256_header_jwk_payload_and_valid_hmac() {
    let key = test_key();
    let eab_secret: Vec<u8> = (0u8..32).collect();
    let eab = ExternalAccountKey::new(String::from("eab1"), &eab_secret);
    let acct = NewAccount {
        contact: Vec::new(),
        terms_of_service_agreed: true,
        only_return_existing: false,
    };
    let body = create_account_request(&key, &acct, Some(&eab), "AAAA", "https://ca.test/new-acct")
        .ok()
        .unwrap();
    let v = body_json(&body);
    let payload_bytes = BASE64_URL_SAFE_NO_PAD
        .decode(v["payload"].as_str().unwrap())
        .unwrap();
    let payload: serde_json::Value = serde_json::from_slice(&payload_bytes).unwrap();
    // The contact member is omitted when the list is empty.
    assert!(payload.get("contact").is_none());

    let binding = &payload["externalAccountBinding"];
    let protected = binding["protected"].as_str().unwrap();
    let inner_payload = binding["payload"].as_str().unwrap();
    let inner_sig = binding["signature"].as_str().unwrap();

    let header_bytes = BASE64_URL_SAFE_NO_PAD.decode(protected).unwrap();
    let header: serde_json::Value = serde_json::from_slice(&header_bytes).unwrap();
    assert_eq!(header["alg"].as_str().unwrap(), "HS256");
    assert_eq!(header["kid"].as_str().unwrap(), "eab1");
    assert_eq!(header["url"].as_str().unwrap(), "https://ca.test/new-acct");
    // The EAB inner JWS carries no nonce.
    assert!(header.get("nonce").is_none());

    // The inner payload is the account's public JWK.
    let jwk_bytes = BASE64_URL_SAFE_NO_PAD.decode(inner_payload).unwrap();
    let jwk: serde_json::Value = serde_json::from_slice(&jwk_bytes).unwrap();
    assert_eq!(jwk["kty"].as_str().unwrap(), "EC");
    let x = BASE64_URL_SAFE_NO_PAD.decode(jwk["x"].as_str().unwrap()).unwrap();
    assert_eq!(&x, &key.public_key()[1..33]);

    // The HMAC verifies under the EAB key.
    let hmac_key = ring::hmac::Key::new(ring::hmac::HMAC_SHA256, &eab_secret);
    let signing_input = format!("{}.{}", protected, inner_payload);
    let sig = BASE64_URL_SAFE_NO_PAD.decode(inner_sig).unwrap();
    ring::hmac::verify(&hmac_key, signing_input.as_bytes(), &sig)
        .expect("HS256 signature must verify");
}

#[test]
fn new_order_payload_is_exact() {
    let account = test_account();
    let order = NewOrder {
        identifiers: vec![
            Identifier::Dns(String::from("example.com")),
            Identifier::Dns(String::from("www.example.com")),
        ],
    };
    let body = account.new_order_request(&order, "AAAA").ok().unwrap();
    let v = body_json(&body);
    let payload_bytes = BASE64_URL_SAFE_NO_PAD
        .decode(v["payload"].as_str().unwrap())
        .unwrap();
    let mut expected = String::from("{\"identifiers\":[{\"type\":\"dns\",\"value\":\"example.com\"},");
    expected.push_str("{\"type\":\"dns\",\"value\":\"www.example.com\"}]}");
    assert_eq!(String::from_utf8(payload_bytes).unwrap(), expected);
    let header_bytes = BASE64_URL_SAFE_NO_PAD
        .decode(v["protected"].as_str().unwrap())
        .unwrap();
    let header: serde_json::Value = serde_json::from_slice(&header_bytes).unwrap();
    assert_eq!(header["url"].as_str().unwrap(), "https://ca.test/new-order");
}

#[test]
fn finalize_request_carries_b64url_csr() {
    let account = test_account();
    let order = Order::from_response(
        Some(String::from("https://ca.test/order/7")),
        Some(String::from("BBBB")),
        order_state(OrderStatus::Ready),
    )
    .ok()
    .unwrap();
    let csr: Vec<u8> = (0u8..50).collect();
    let body = order.finalize_request(&account, &csr, "BBBB").ok().unwrap();
    let v = body_json(&body);
    let payload_bytes = BASE64_URL_SAFE_NO_PAD
        .decode(v["payload"].as_str().unwrap())
        .unwrap();
    let expected = format!("{{\"csr\":\"{}\"}}", BASE64_URL_SAFE_NO_PAD.encode(&csr));
    assert_eq!(String::from_utf8(payload_bytes).unwrap(), expected);
    let header_bytes = BASE64_URL_SAFE_NO_PAD
        .decode(v["protected"].as_str().unwrap())
        .unwrap();
    let header: serde_json::Value = serde_json::from_slice(&header_bytes).unwrap();
    assert_eq!(
        header["url"].as_str().unwrap(),
        "https://ca.test/order/7/finalize"
    );
}

#[test]
fn challenge_trigger_payload_is_empty_object() {
    let account = test_account();
    let body = challenge_ready_request(&account, "AAAA", "https://ca.test/chall/1")
        .ok()
        .unwrap();
    let v = body_json(&body);
    let payload_bytes = BASE64_URL_SAFE_NO_PAD
        .decode(v["payload"].as_str().unwrap())
        .unwrap();
    assert_eq!(payload_bytes, b"{}");
}

#[test]
fn post_as_get_payload_is_empty_string() {
    let account = test_account();
    let body = post_as_get_request(&account, "AAAA", "https://ca.test/authz/1")
        .ok()
        .unwrap();
    let v = body_json(&body);
    assert_eq!(v["payload"].as_str().unwrap(), "");
}

#[test]
fn json_escaping_in_header_members() {
    let account = Account::from_parts(
        test_key(),
        Some(String::from("https://ca.test/acct/\"quoted\"\\path\u{1}")),
        test_directory(),
    )
    .ok()
    .unwrap();
    let body = account
        .signed_request(None, "AAAA", "https://ca.test/x")
        .ok()
        .unwrap();
    let v = body_json(&body);
    let header_bytes = BASE64_URL_SAFE_NO_PAD
        .decode(v["protected"].as_str().unwrap())
        .unwrap();
    let header: serde_json::Value =
        serde_json::from_slice(&header_bytes).expect("header must stay valid JSON");
    assert_eq!(
        header["kid"].as_str().unwrap(),
        "https://ca.test/acct/\"quoted\"\\path\u{1}"
    );
}

#[test]
fn nonce_slot_is_consumed_once_and_refilled() {
    let mut order = Order::from_response(
        Some(String::from("https://ca.test/order/7")),
        Some(String::from("AAAA")),
        order_state(OrderStatus::Pending),
    )
    .ok()
    .unwrap();
    assert_eq!(order.take_nonce(), Some(String::from("AAAA")));
    assert_eq!(order.take_nonce(), None);
    order.absorb_response(Some(String::from("BBBB")), order_state(OrderStatus::Ready));
    assert_eq!(order.state().status, OrderStatus::Ready);
    assert_eq!(order.take_nonce(), Some(String::from("BBBB")));
    order.absorb_nonce(Some(String::from("CCCC")));
    assert_eq!(order.take_nonce(), Some(String::from("CCCC")));
}

#[test]
fn order_requires_location_header() {
    let r = Order::from_response(None, None, order_state(OrderStatus::Pending));
    assert!(matches!(r, Err(Error::Str(_))));
    let o = Order::from_response(
        Some(String::from("https://ca.test/order/7")),
        None,
        order_state(OrderStatus::Pending),
    )
    .ok()
    .unwrap();
    assert_eq!(o.url(), "https://ca.test/order/7");
}

#[test]
fn certificate_decision_follows_state_machine() {
    let mut st = order_state(OrderStatus::Processing);
    let order = |s: OrderState| {
        Order::from_response(Some(String::from("https://ca.test/order/7")), None, s)
            .ok()
            .unwrap()
    };
    assert!(order(st.clone()).needs_refresh());
    assert!(matches!(
        order(st.clone()).certificate_decision(),
        CertificateDecision::NotReady
    ));

    st.status = OrderStatus::Valid;
    assert!(matches!(
        order(st.clone()).certificate_decision(),
        CertificateDecision::FailNoUrl
    ));

    st.certificate = Some(String::from("https://ca.test/cert/7"));
    match order(st.clone()).certificate_decision() {
        CertificateDecision::Fetch(url) => assert_eq!(url, "https://ca.test/cert/7"),
        _ => panic!("expected a certificate fetch"),
    }

    st.status = OrderStatus::Ready;
    assert!(matches!(
        order(st.clone()).certificate_decision(),
        CertificateDecision::FailInvalidState
    ));

    st.status = OrderStatus::Invalid;
    st.error = Some(Problem {
        problem_type: Some(String::from("urn:ietf:params:acme:error:caa")),
        detail: Some(String::from("CAA")),
        subproblems: None,
        status: Some(403),
    });
    let failed = order(st);
    assert!(matches!(
        failed.certificate_decision(),
        CertificateDecision::FailProblem
    ));
    let problem = failed.state().error.as_ref().unwrap();
    assert_eq!(problem.detail.as_deref(), Some("CAA"));
}

#[test]
fn check_status_maps_problems() {
    assert!(check_status(201, None).is_ok());
    assert!(check_status(200, None).is_ok());
    let problem = Problem {
        problem_type: Some(String::from("urn:ietf:params:acme:error:badNonce")),
        detail: None,
        subproblems: None,
        status: Some(400),
    };
    match check_status(400, Some(problem)) {
        Err(Error::Api(p)) => assert_eq!(
            p.problem_type.as_deref(),
            Some("urn:ietf:params:acme:error:badNonce")
        ),
        _ => panic!("expected the problem to surface"),
    }
    assert!(matches!(check_status(500, None), Err(Error::Str(_))));
}

#[test]
fn certificate_body_requires_utf8() {
    let pem = b"-----BEGIN CERTIFICATE-----\nAAAA\n-----END CERTIFICATE-----\n".to_vec();
    assert_eq!(
        certificate_body(pem.clone()).ok().unwrap(),
        String::from_utf8(pem).unwrap()
    );
    assert!(matches!(
        certificate_body(vec![0xff, 0xfe]),
        Err(Error::Str(_))
    ));
}

#[test]
fn lets_encrypt_urls() {
    assert_eq!(
        LetsEncrypt::Production.url(),
        "https://acme-v02.api.letsencrypt.org/directory"
    );
    assert_eq!(
        LetsEncrypt::Staging.url(),
        "https://acme-staging-v02.api.letsencrypt.org/directory"
    );
}

#[test]
fn kid_scoped_header_bytes_are_exact() {
    let h = acme_core::jose::encode_header_kid(
        acme_core::jose::SigningAlgorithm::Es256,
        "https://ca.test/acct/1",
        Some("AAAA"),
        "https://ca.test/new-order",
    );
    let mut expected = String::from("{\"alg\":\"ES256\",\"kid\":\"https://ca.test/acct/1\",");
    expected.push_str("\"nonce\":\"AAAA\",\"url\":\"https://ca.test/new-order\"}");
    assert_eq!(String::from_utf8(h).unwrap(), expected);
}

#[test]
fn eab_header_bytes_are_exact_and_nonce_free() {
    let h = acme_core::jose::encode_header_kid(
        acme_core::jose::SigningAlgorithm::Hs256,
        "eab1",
        None,
        "https://ca.test/new-acct",
    );
    assert_eq!(
        String::from_utf8(h).unwrap(),
        "{\"alg\":\"HS256\",\"kid\":\"eab1\",\"url\":\"https://ca.test/new-acct\"}"
    );
}

#[test]
fn header_members_are_escaped_byte_for_byte() {
    let h = acme_core::jose::encode_header_kid(
        acme_core::jose::SigningAlgorithm::Es256,
        "a\"b\\c\u{1}",
        Some("AAAA"),
        "https://ca.test/x",
    );
    let s = String::from_utf8(h).unwrap();
    assert!(s.contains("\"kid\":\"a\\\"b\\\\c\\u0001\""));
}

#[test]
fn bad_nonce_problem_surfaces_and_retry_uses_fresh_nonce() {
    // A POST answered 400 badNonce surfaces as Api(problem) ...
    let problem = Problem {
        problem_type: Some(String::from("urn:ietf:params:acme:error:badNonce")),
        detail: None,
        subproblems: None,
        status: Some(400),
    };
    assert!(matches!(check_status(400, Some(problem)), Err(Error::Api(_))));

    // ... and the response still carries a fresh nonce, which the retry
    // must place in the protected header.
    let mut order = Order::from_response(
        Some(String::from("https://ca.test/order/7")),
        None,
        order_state(OrderStatus::Pending),
    )
    .ok()
    .unwrap();
    order.absorb_nonce(Some(String::from("CCCC")));
    let account = test_account();
    let nonce = order.take_nonce().unwrap();
    let body = order.refresh_request(&account, &nonce).ok().unwrap();
    let v = body_json(&body);
    let header_bytes = BASE64_URL_SAFE_NO_PAD
        .decode(v["protected"].as_str().unwrap())
        .unwrap();
    let header: serde_json::Value = serde_json::from_slice(&header_bytes).unwrap();
    assert_eq!(header["nonce"].as_str().unwrap(), "CCCC");
    assert_eq!(header["url"].as_str().unwrap(), "https://ca.test/order/7");
}

#[test]
fn account_requires_location_header() {
    let r = Account::from_parts(test_key(), None, test_directory());
    assert!(matches!(r, Err(Error::Str(_))));
}

#[test]
fn eab_sign_is_deterministic_hmac() {
    let eab_secret: Vec<u8> = (0u8..32).collect();
    let eab = ExternalAccountKey::new(String::from("eab1"), &eab_secret);
    let tag = eab.sign(b"payload");
    assert_eq!(tag, eab.sign(b"payload"));
    let hmac_key = ring::hmac::Key::new(ring::hmac::HMAC_SHA256, &eab_secret);
    ring::hmac::verify(&hmac_key, b"payload", &tag).expect("tag must verify");
}

#[test]
fn problem_subproblems_surface_through_check_status() {
    let problem = Problem {
        problem_type: Some(String::from("urn:ietf:params:acme:error:malformed")),
        detail: Some(String::from("rejected identifiers")),
        subproblems: Some(vec![Subproblem {
            problem_type: Some(String::from("urn:ietf:params:acme:error:malformed")),
            detail: Some(String::from("invalid domain")),
            identifier: Some(Identifier::Dns(String::from("bad_domain"))),
        }]),
        status: Some(403),
    };
    match check_status(403, Some(problem)) {
        Err(Error::Api(p)) => {
            let subs = p.subproblems.unwrap();
            assert_eq!(subs.len(), 1);
            assert_eq!(subs[0].detail.as_deref(), Some("invalid domain"));
        }
        _ => panic!("expected the problem to surface"),
    }
}
