//! Credential and client builders: every order of supplying the mandatory
//! fields yields a buildable credential carrying exactly the supplied
//! values, exactly one Business grant is ever populated, and a missing
//! environment variable surfaces as the named builder error.

use revolut::business::client::{business_client, BusinessAuthenticationBuilder};
use revolut::errors::{ClientBuilderError, Error};
use revolut::merchant::client::{merchant_client, MerchantAuthenticationBuilder};

#[test]
fn business_refresh_token_path_populates_exactly_one_grant() {
    let auth = BusinessAuthenticationBuilder::default()
        .with_client_assertion("assertion-jwt")
        .with_refresh_token("refresh-1")
        .build();
    assert_eq!(auth.client_assertion, "assertion-jwt");
    assert_eq!(auth.refresh_token, Some("refresh-1".to_string()));
    assert_eq!(auth.authorization_code, None);
}

#[test]
fn business_authorization_code_path_populates_exactly_one_grant() {
    let auth = BusinessAuthenticationBuilder::default()
        .with_authorization_code("code-1")
        .with_client_assertion("assertion-jwt")
        .build();
    assert_eq!(auth.client_assertion, "assertion-jwt");
    assert_eq!(auth.authorization_code, Some("code-1".to_string()));
    assert_eq!(auth.refresh_token, None);
}

#[test]
fn business_builder_field_order_does_not_matter() {
    let first = BusinessAuthenticationBuilder::default()
        .with_client_assertion("a")
        .with_refresh_token("r")
        .build();
    let second = BusinessAuthenticationBuilder::default()
        .with_refresh_token("r")
        .with_client_assertion("a")
        .build();
    assert_eq!(first, second);
}

#[test]
fn business_builder_replaces_an_already_filled_slot() {
    let auth = BusinessAuthenticationBuilder::default()
        .with_client_assertion("a")
        .with_refresh_token("old")
        .with_refresh_token("new")
        .build();
    assert_eq!(auth.refresh_token, Some("new".to_string()));
}

#[test]
fn missing_environment_variable_is_reported_by_name() {
    let result = BusinessAuthenticationBuilder::default()
        .with_environment_inherited_refresh_token("UNSET_VAR_NAME", None);
    match result {
        Err(Error::ClientBuilderError(ClientBuilderError::MissingEnvironmentVariable(name))) => {
            assert_eq!(name, "UNSET_VAR_NAME");
        }
        _ => panic!("expected a missing-environment-variable error"),
    }
}

#[test]
fn present_environment_variable_value_fills_the_slot() {
    let auth = BusinessAuthenticationBuilder::default()
        .with_client_assertion("a")
        .with_environment_inherited_refresh_token("SET_VAR", Some("from-env".to_string()))
        .unwrap()
        .build();
    assert_eq!(auth.refresh_token, Some("from-env".to_string()));
}

#[test]
fn business_client_build_starts_with_an_empty_token_cache() {
    let auth = BusinessAuthenticationBuilder::default()
        .with_client_assertion("a")
        .with_refresh_token("r")
        .build();
    let client = business_client()
        .with_sandbox_environment()
        .with_authentication(auth)
        .build()
        .unwrap();
    assert_eq!(client.access_token, None);
    assert_eq!(client.access_token_expires_at, None);
    assert_eq!(client.secret_key, None);
}

#[test]
fn merchant_client_build_copies_the_secret_key() {
    let auth = MerchantAuthenticationBuilder::default()
        .with_secret_key("sk_test")
        .build();
    let client = merchant_client()
        .with_production_environment()
        .with_authentication(auth)
        .build()
        .unwrap();
    assert_eq!(client.secret_key, Some("sk_test".to_string()));
    assert_eq!(client.access_token, None);
}

#[test]
fn merchant_missing_environment_variable_is_reported_by_name() {
    let result = MerchantAuthenticationBuilder::default()
        .with_environment_inherited_secret_key("NO_SUCH_SECRET", None);
    match result {
        Err(ClientBuilderError::MissingEnvironmentVariable(name)) => {
            assert_eq!(name, "NO_SUCH_SECRET");
        }
        _ => panic!("expected a missing-environment-variable error"),
    }
}
