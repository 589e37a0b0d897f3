//! Merchant synchronous webhooks for fast checkout: the payload shapes
//! and the request descriptions of the endpoints, which exist only in the
//! production environment.

use vstd::prelude::*;
use crate::client::{Body, Environment, HttpMethod, ProductionEnvironment, RevolutEndpoint};
use crate::text;

verus! {

/// An address-validation endpoint registration payload.
#[derive(Clone, Debug, PartialEq, Eq)]
pub struct RegisterAddressValidationEndpointForFastCheckoutRequest {
    pub event_type: RegisterAddressValidationEndpointForFastCheckoutEventType,
    pub url: String,
    pub location_id: Option<String>,
}

/// The event the synchronous webhook subscribes to.
#[derive(Clone, Copy, Debug, PartialEq, Eq, Structural)]
pub enum RegisterAddressValidationEndpointForFastCheckoutEventType {
    ValidateAddress,
}

/// A registered synchronous webhook, as the backend reports it.
#[derive(Clone, Debug, PartialEq, Eq)]
pub struct RegisterAddressValidationEndpointForFastCheckout {
    pub id: String,
    pub signing_key: String,
    pub url: String,
    pub event_type: RegisterAddressValidationEndpointForFastCheckoutEventType,
    pub location_id: Option<String>,
}

/// The registration request with its already JSON-encoded payload;
/// synchronous webhooks exist only in production.
pub fn register_address_validation_endpoint_for_fast_checkout(
    env: &ProductionEnvironment<crate::MerchantClient>,
    address_validation_endpoint: Vec<u8>,
) -> (r: (HttpMethod, RevolutEndpoint))
    ensures
        r.0 matches HttpMethod::Post { body: b } && (b matches Option::Some(inner) && (
        inner matches Body::Json(j) && j@ == address_validation_endpoint@)),
        r.1.0@ == env.spec_unversioned_uri("/synchronous-webhooks"@),
{
    (
        HttpMethod::Post { body: Option::Some(Body::Json(address_validation_endpoint)) },
        env.unversioned_uri("/synchronous-webhooks"),
    )
}

/// The synchronous-webhook list request.
pub fn retrieve_synchronous_webhook_list(
    env: &ProductionEnvironment<crate::MerchantClient>,
) -> (r: (HttpMethod, RevolutEndpoint))
    ensures
        r.0 is Get,
        r.1.0@ == env.spec_unversioned_uri("/synchronous-webhooks"@),
{
    (HttpMethod::Get, env.unversioned_uri("/synchronous-webhooks"))
}

/// The synchronous-webhook deletion request (the path spelling is the
/// backend's own).
pub fn delete_synchronous_webhook(
    env: &ProductionEnvironment<crate::MerchantClient>,
    synchronous_webhook_id: &str,
) -> (r: (HttpMethod, RevolutEndpoint))
    ensures
        r.0 is Delete,
        r.1.0@ == env.spec_unversioned_uri("/synchronous-webooks/"@ + synchronous_webhook_id@),
{
    let path = text::concat2("/synchronous-webooks/", synchronous_webhook_id);
    (HttpMethod::Delete, env.unversioned_uri(path.as_str()))
}

} // verus!
