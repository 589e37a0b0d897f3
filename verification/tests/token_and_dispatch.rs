//! The token lifecycle and the request dispatcher: freshness decisions,
//! the form-encoded grant requests, the authenticated transport request
//! with its headers and bodies, and the classification of responses.

use revolut::business::accounts::{first_bank_details, AccountAddress, AccountEstimatedTime, BankDetails};
use revolut::business::client::{business_client, BusinessAuthenticationBuilder};
use revolut::client::{
    backend_failure, decode_failure, is_success_status, transport_failure, Body, Environment,
    HttpMethod, PreparedBody, Verb,
};
use revolut::errors::{BackendError, ClientError, Error};
use revolut::merchant::client::{merchant_client, MerchantAuthenticationBuilder};
use revolut::merchant::orders;
use revolut::merchant::disputes::{self, EvidenceRequest, EvidenceType};

fn business_test_client() -> revolut::client::Client<
    revolut::client::SandboxEnvironment<revolut::BusinessClient>,
    revolut::business::client::BusinessAuthentication,
> {
    let auth = BusinessAuthenticationBuilder::default()
        .with_client_assertion("assertion-jwt")
        .with_refresh_token("refresh-1")
        .build();
    business_client()
        .with_sandbox_environment()
        .with_authentication(auth)
        .build()
        .unwrap()
}

#[test]
fn token_freshness_decides_login() {
    let mut client = business_test_client();
    // No cached token at all: the first call must log in.
    assert!(client.needs_login(100));
    // The refresh fills the cache: expiry is now + lifetime.
    client.apply_login_response("token-1".to_string(), 3600, 100);
    assert_eq!(client.access_token, Some("token-1".to_string()));
    assert_eq!(client.access_token_expires_at, Some(3700));
    // A call issued strictly before the expiry does not trigger login.
    assert!(!client.needs_login(3699));
    // A call issued at or after the expiry triggers it again.
    assert!(client.needs_login(3700));
    assert!(client.needs_login(4000));
}

#[test]
fn one_login_precedes_the_request_after_expiry() {
    let mut client = business_test_client();
    assert!(client.needs_login(50));
    let token_request = client.login_with_refresh_token_request().unwrap();
    assert_eq!(
        token_request.endpoint.0,
        "https://sandbox-b2b.revolut.com/api/1.0/auth/token"
    );
    client.apply_login_response("fresh-token".to_string(), 600, 50);
    assert!(!client.needs_login(51));
    let request = client
        .prepare_request(HttpMethod::Get, &client.environment.uri("1.0", "/accounts"))
        .unwrap();
    assert!(request
        .headers
        .iter()
        .any(|h| h.name == "Authorization" && h.value == "Bearer fresh-token"));
}

#[test]
fn fresh_token_suppresses_login_in_ensure_logged_in() {
    let mut client = business_test_client();
    client.apply_login_response("t".to_string(), i64::MAX, 0);
    let step = client.ensure_logged_in().unwrap();
    assert!(step.is_none());
}

#[test]
fn stale_cache_yields_the_refresh_grant_request() {
    let client = business_test_client();
    let step = client.ensure_logged_in().unwrap();
    let token_request = step.expect("an empty cache must trigger login");
    let pairs: Vec<(String, String)> = token_request
        .params
        .iter()
        .map(|p| (p.key.clone(), p.value.clone()))
        .collect();
    assert_eq!(
        pairs,
        vec![
            ("grant_type".to_string(), "refresh_token".to_string()),
            ("refresh_token".to_string(), "refresh-1".to_string()),
            (
                "client_assertion_type".to_string(),
                "urn:ietf:params:oauth:client-assertion-type:jwt-bearer".to_string()
            ),
            ("client_assertion".to_string(), "assertion-jwt".to_string()),
        ]
    );
}

#[test]
fn refresh_grant_without_refresh_token_cannot_log_in() {
    let auth = BusinessAuthenticationBuilder::default()
        .with_client_assertion("a")
        .with_authorization_code("c")
        .build();
    let client = business_client()
        .with_sandbox_environment()
        .with_authentication(auth)
        .build()
        .unwrap();
    assert_eq!(
        client.login_with_refresh_token_request().unwrap_err(),
        Error::ClientError(ClientError::CannotLogIn("missing refresh token".to_string()))
    );
}

#[test]
fn authorization_code_grant_builds_its_form() {
    let auth = BusinessAuthenticationBuilder::default()
        .with_client_assertion("a")
        .with_authorization_code("code-7")
        .build();
    let client = business_client()
        .with_production_environment()
        .with_authentication(auth)
        .build()
        .unwrap();
    let token_request = client.login_with_authorization_code_request().unwrap();
    assert_eq!(
        token_request.endpoint.0,
        "https://b2b.revolut.com/api/1.0/auth/token"
    );
    assert_eq!(token_request.params[0].key, "grant_type");
    assert_eq!(token_request.params[0].value, "authorization_code");
    assert_eq!(token_request.params[1].key, "code");
    assert_eq!(token_request.params[1].value, "code-7");
}

#[test]
fn authorization_code_grant_without_code_cannot_log_in() {
    let client = business_test_client();
    assert_eq!(
        client.login_with_authorization_code_request().unwrap_err(),
        Error::ClientError(ClientError::CannotLogIn("missing authorization code".to_string()))
    );
}

#[test]
fn request_without_cached_token_cannot_log_in() {
    let client = business_test_client();
    let uri = client.environment.uri("1.0", "/accounts");
    assert_eq!(
        client.prepare_request(HttpMethod::Get, &uri).unwrap_err(),
        Error::ClientError(ClientError::CannotLogIn(
            "could not retrieve access token".to_string()
        ))
    );
}

#[test]
fn empty_body_post_announces_zero_content_length() {
    let mut client = business_test_client();
    client.apply_login_response("t".to_string(), 3600, 0);
    let uri = client.environment.uri("1.0", "/payout-links/42/cancel");
    let request = client
        .prepare_request(HttpMethod::Post { body: None }, &uri)
        .unwrap();
    assert_eq!(request.verb, Verb::Post);
    assert!(request
        .headers
        .iter()
        .any(|h| h.name == "Content-Length" && h.value == "0"));
    assert!(matches!(request.body, PreparedBody::Empty));
}

#[test]
fn get_request_does_not_announce_a_content_length() {
    let mut client = business_test_client();
    client.apply_login_response("t".to_string(), 3600, 0);
    let uri = client.environment.uri("1.0", "/accounts");
    let request = client.prepare_request(HttpMethod::Get, &uri).unwrap();
    assert_eq!(request.verb, Verb::Get);
    assert!(!request.headers.iter().any(|h| h.name == "Content-Length"));
    assert!(request.headers.iter().any(|h| h.name == "Accept" && h.value == "application/json"));
}

#[test]
fn json_body_is_carried_with_its_content_type() {
    let mut client = business_test_client();
    client.apply_login_response("t".to_string(), 3600, 0);
    let uri = client.environment.uri("1.0", "/exchange");
    let payload = b"{\"request_id\":\"r1\"}".to_vec();
    let request = client
        .prepare_request(HttpMethod::Post { body: Some(Body::Json(payload.clone())) }, &uri)
        .unwrap();
    assert!(request
        .headers
        .iter()
        .any(|h| h.name == "Content-Type" && h.value == "application/json"));
    match request.body {
        PreparedBody::Bytes(bytes) => assert_eq!(bytes, payload),
        _ => panic!("expected a byte body"),
    }
}

#[test]
fn merchant_request_carries_the_fixed_api_version() {
    let auth = MerchantAuthenticationBuilder::default().with_secret_key("sk").build();
    let client = merchant_client()
        .with_sandbox_environment()
        .with_authentication(auth)
        .build()
        .unwrap();
    let uri = client.environment.uri("1.0", "/orders");
    let request = client.prepare_request(HttpMethod::Get, &uri).unwrap();
    assert_eq!(request.url, "https://sandbox-merchant.revolut.com/api/1.0/orders");
    assert!(request
        .headers
        .iter()
        .any(|h| h.name == "Revolut-Api-Version" && h.value == "2024-09-01"));
    assert!(request.headers.iter().any(|h| h.name == "Authorization" && h.value == "Bearer sk"));
}

#[test]
fn merchant_request_without_secret_key_cannot_log_in() {
    let auth = MerchantAuthenticationBuilder::default().with_secret_key("sk").build();
    let mut client = merchant_client()
        .with_sandbox_environment()
        .with_authentication(auth)
        .build()
        .unwrap();
    client.secret_key = None;
    let uri = client.environment.uri("1.0", "/orders");
    assert_eq!(
        client.prepare_request(HttpMethod::Get, &uri).unwrap_err(),
        Error::ClientError(ClientError::CannotLogIn("could not retrieve secret key".to_string()))
    );
}

#[test]
fn status_classification_follows_the_2xx_rule() {
    assert!(!is_success_status(199));
    assert!(is_success_status(200));
    assert!(is_success_status(299));
    assert!(!is_success_status(300));
    assert!(!is_success_status(404));
}

#[test]
fn backend_error_body_surfaces_verbatim() {
    let backend = BackendError {
        code: Some("1234".to_string()),
        error_code: None,
        error_id: None,
        errors: None,
        id: None,
        message: Some("insufficient funds".to_string()),
        timestamp: Some(1700000000),
    };
    assert_eq!(
        backend_failure(Ok(backend.clone())),
        Error::BackendError(backend)
    );
}

#[test]
fn undecodable_error_body_becomes_a_serialization_error() {
    assert_eq!(
        backend_failure(Err("unexpected token".to_string())),
        Error::ClientError(ClientError::SerializationError("unexpected token".to_string()))
    );
}

#[test]
fn transport_failure_becomes_a_request_error() {
    assert_eq!(
        transport_failure("connection refused".to_string()),
        Error::ClientError(ClientError::RequestError("connection refused".to_string()))
    );
}

#[test]
fn decode_failure_embeds_the_raw_response() {
    match decode_failure("missing field `id`", "Response { status: 200 }") {
        Error::ClientError(ClientError::RequestError(d)) => {
            assert_eq!(d, "missing field `id`: Response { status: 200 }");
        }
        _ => panic!("expected a request error"),
    }
}

#[test]
fn order_capture_frames_its_amount_body() {
    let env = revolut::client::ProductionEnvironment::<revolut::MerchantClient> {
        client_type: std::marker::PhantomData,
    };
    let (method, endpoint) = orders::capture(&env, "0042", 150);
    assert_eq!(endpoint.0, "https://merchant.revolut.com/api//orders/0042/capture");
    match method {
        HttpMethod::Post { body: Some(Body::Json(bytes)) } => {
            assert_eq!(bytes, b"{\"amount\":150}".to_vec());
        }
        _ => panic!("expected a JSON body"),
    }
}

#[test]
fn evidence_upload_is_a_single_typed_part() {
    let env = revolut::client::ProductionEnvironment::<revolut::MerchantClient> {
        client_type: std::marker::PhantomData,
    };
    let document = vec![1u8, 2, 3, 4];
    let (method, endpoint) = disputes::upload_evidence(
        &env,
        "d-7",
        EvidenceRequest { file_name: "receipt.png".to_string(), data: EvidenceType::PNG(&document) },
    );
    assert_eq!(endpoint.0, "https://merchant.revolut.com/api//disputes/d-7/evidences");
    match method {
        HttpMethod::Post { body: Some(Body::Multipart(parts)) } => {
            assert_eq!(parts.len(), 1);
            assert_eq!(parts[0].contents, document);
            assert_eq!(parts[0].mime_str, "image/png");
            assert_eq!(parts[0].file_name, "receipt.png");
        }
        _ => panic!("expected a multipart body"),
    }
}

#[test]
fn first_bank_details_requires_a_nonempty_list() {
    assert_eq!(
        first_bank_details(vec![]).unwrap_err(),
        Error::ClientError(ClientError::RequestError("No such account present".to_string()))
    );
    let details = BankDetails {
        iban: None,
        bic: None,
        account_no: Some("12345678".to_string()),
        sort_code: Some("04-00-04".to_string()),
        routing_number: None,
        beneficiary: "ACME Ltd".to_string(),
        beneficiary_address: AccountAddress {
            street_line1: None,
            street_line2: None,
            region: None,
            city: None,
            country: "GB".to_string(),
            postcode: "E1".to_string(),
        },
        bank_country: Some("GB".to_string()),
        pooled: Some(false),
        unique_reference: None,
        schemes: vec!["faster_payments".to_string()],
        estimated_time: AccountEstimatedTime { unit: "days".to_string(), min: Some(1), max: Some(3) },
    };
    assert_eq!(first_bank_details(vec![details.clone()]).unwrap(), details);
}
