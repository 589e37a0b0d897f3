//! Merchant webhooks: the payload shapes and the request descriptions of
//! the endpoints.

use vstd::prelude::*;
use crate::client::{Body, Environment, HttpMethod, RevolutEndpoint};
use crate::text;

verus! {

/// A webhook registration payload.
#[derive(Clone, Debug, PartialEq, Eq)]
pub struct WebhookRequest {
    pub url: String,
    pub events: Vec<WebhookEvent>,
}

/// The events a Merchant webhook subscribes to, named on the wire in
/// screaming snake case.
#[derive(Clone, Copy, Debug, PartialEq, Eq, Structural)]
pub enum WebhookEvent {
    OrderCompleted,
    OrderAuthorised,
    OrderCancelled,
    OrderPaymentAuthenticated,
    OrderPaymentDeclined,
    OrderPaymentFailed,
    PayoutInitiated,
    PayoutCompleted,
    PayoutFailed,
    DisputeActionRequired,
    DisputeUnderReview,
    DisputeWon,
    DisputeLost,
}

/// A registered webhook, including its signing secret.
#[derive(Clone, Debug, PartialEq, Eq)]
pub struct Webhook {
    pub id: String,
    pub url: Option<String>,
    pub events: Option<Vec<WebhookEvent>>,
    pub signing_secret: String,
}

/// A signing-secret rotation payload.
#[derive(Clone, Debug, PartialEq, Eq)]
pub struct RotateWebhookSigningSecretRequest {
    pub expiration_period: Option<String>,
}

/// The webhook registration request with its already JSON-encoded payload.
pub fn create<E: Environment>(env: &E, webhook: Vec<u8>) -> (r: (HttpMethod, RevolutEndpoint))
    ensures
        r.0 matches HttpMethod::Post { body: b } && (b matches Option::Some(inner) && (
        inner matches Body::Json(j) && j@ == webhook@)),
        r.1.0@ == env.spec_uri("1.0"@, "/webhooks"@),
{
    (HttpMethod::Post { body: Option::Some(Body::Json(webhook)) }, env.uri("1.0", "/webhooks"))
}

/// The webhook-list request.
pub fn list<E: Environment>(env: &E) -> (r: (HttpMethod, RevolutEndpoint))
    ensures
        r.0 is Get,
        r.1.0@ == env.spec_uri("1.0"@, "/webhooks"@),
{
    (HttpMethod::Get, env.uri("1.0", "/webhooks"))
}

/// The single-webhook request.
pub fn retrieve<E: Environment>(env: &E, webhook_id: &str) -> (r: (HttpMethod, RevolutEndpoint))
    ensures
        r.0 is Get,
        r.1.0@ == env.spec_uri("1.0"@, "/webhooks/"@ + webhook_id@),
{
    let path = text::concat2("/webhooks/", webhook_id);
    (HttpMethod::Get, env.uri("1.0", path.as_str()))
}

/// The webhook replacement request with its already JSON-encoded payload.
pub fn update<E: Environment>(env: &E, webhook_id: &str, webhook: Vec<u8>) -> (r: (
    HttpMethod,
    RevolutEndpoint,
))
    ensures
        r.0 matches HttpMethod::Put { body: b } && (b matches Option::Some(inner) && (
        inner matches Body::Json(j) && j@ == webhook@)),
        r.1.0@ == env.spec_uri("1.0"@, "/webhooks/"@ + webhook_id@),
{
    let path = text::concat2("/webhooks/", webhook_id);
    (HttpMethod::Put { body: Option::Some(Body::Json(webhook)) }, env.uri("1.0", path.as_str()))
}

/// The webhook deletion request.
pub fn delete<E: Environment>(env: &E, webhook_id: &str) -> (r: (HttpMethod, RevolutEndpoint))
    ensures
        r.0 is Delete,
        r.1.0@ == env.spec_uri("1.0"@, "/webhooks/"@ + webhook_id@),
{
    let path = text::concat2("/webhooks/", webhook_id);
    (HttpMethod::Delete, env.uri("1.0", path.as_str()))
}

/// The signing-secret rotation request with its already JSON-encoded
/// payload.
pub fn rotate_signing_secret<E: Environment>(
    env: &E,
    webhook_id: &str,
    rotate_webhook_signing_secret: Vec<u8>,
) -> (r: (HttpMethod, RevolutEndpoint))
    ensures
        r.0 matches HttpMethod::Post { body: b } && (b matches Option::Some(inner) && (
        inner matches Body::Json(j) && j@ == rotate_webhook_signing_secret@)),
        r.1.0@ == env.spec_uri("1.0"@, "/webhooks/"@ + webhook_id@),
{
    let path = text::concat2("/webhooks/", webhook_id);
    (
        HttpMethod::Post { body: Option::Some(Body::Json(rotate_webhook_signing_secret)) },
        env.uri("1.0", path.as_str()),
    )
}

} // verus!
