//! Merchant Apple Pay domain registration: the payload shapes and the
//! request descriptions of the endpoints, which exist only in the
//! production environment.

use vstd::prelude::*;
use crate::client::{Body, Environment, HttpMethod, ProductionEnvironment, RevolutEndpoint};

verus! {

/// A domain registration payload.
#[derive(Clone, Debug, PartialEq, Eq)]
pub struct RegisterDomainRequest {
    pub domain: String,
}

/// A domain deregistration payload.
#[derive(Clone, Debug, PartialEq, Eq)]
pub struct UnregisterDomainRequest {
    pub domain: String,
    pub reason: String,
}

/// The domain registration request with its already JSON-encoded payload.
pub fn register(env: &ProductionEnvironment<crate::MerchantClient>, domain: Vec<u8>) -> (r: (
    HttpMethod,
    RevolutEndpoint,
))
    ensures
        r.0 matches HttpMethod::Post { body: b } && (b matches Option::Some(inner) && (
        inner matches Body::Json(j) && j@ == domain@)),
        r.1.0@ == env.spec_unversioned_uri("/apple-pay/domains/register"@),
{
    (
        HttpMethod::Post { body: Option::Some(Body::Json(domain)) },
        env.unversioned_uri("/apple-pay/domains/register"),
    )
}

/// The domain deregistration request with its already JSON-encoded
/// payload.
pub fn unregister(env: &ProductionEnvironment<crate::MerchantClient>, domain: Vec<u8>) -> (r: (
    HttpMethod,
    RevolutEndpoint,
))
    ensures
        r.0 matches HttpMethod::Post { body: b } && (b matches Option::Some(inner) && (
        inner matches Body::Json(j) && j@ == domain@)),
        r.1.0@ == env.spec_unversioned_uri("/apple-pay/domains/unregister"@),
{
    (
        HttpMethod::Post { body: Option::Some(Body::Json(domain)) },
        env.unversioned_uri("/apple-pay/domains/unregister"),
    )
}

} // verus!
