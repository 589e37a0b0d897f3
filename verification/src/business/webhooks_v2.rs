//! Business webhooks (second version of the API): the failed-event list
//! query parameters, the payload shapes and the request descriptions of
//! the endpoints.

use vstd::prelude::*;
use crate::client::{Body, Environment, HttpMethod, RevolutEndpoint};
use crate::query::{
    append_query_param, lemma_query_string_push, opt_as_str, spec_opt_decimal, spec_opt_str,
    spec_query_string,
};
use crate::text;

verus! {

/// A webhook registration payload.
#[derive(Clone, Debug, PartialEq, Eq)]
pub struct WebhookRequest {
    pub url: String,
    pub events: Option<Vec<WebhookEvent>>,
}

/// The events a webhook subscribes to.
#[derive(Clone, Copy, Debug, PartialEq, Eq, Structural)]
pub enum WebhookEvent {
    TransactionCreated,
    TransactionStateChanged,
    PayoutLinkCreated,
    PayoutLinkStateChanged,
}

/// A freshly registered webhook, including its signing secret, which is
/// served only on creation.
#[derive(Clone, Debug, PartialEq, Eq)]
pub struct WebhookCreationResponse {
    pub id: String,
    pub url: String,
    pub events: Vec<WebhookEvent>,
    pub signing_secret: String,
}

/// A registered webhook.
#[derive(Clone, Debug, PartialEq, Eq)]
pub struct Webhook {
    pub id: String,
    pub url: String,
    pub events: Vec<WebhookEvent>,
}

/// A signing-secret rotation payload.
#[derive(Clone, Debug, PartialEq, Eq)]
pub struct RotateWebhookSigningSecretRequest {
    pub expiration_period: Option<String>,
}

impl Default for RotateWebhookSigningSecretRequest {
    /// No expiration period.
    fn default() -> (r: Self)
        ensures
            r.expiration_period is None,
    {
        RotateWebhookSigningSecretRequest { expiration_period: Option::None }
    }
}

/// The optional filters of the failed-event list, rendered as query
/// parameters in declaration order.
#[derive(Clone, Debug)]
pub struct FailedWebhookEventsListParams {
    pub limit: Option<u64>,
    pub created_before: Option<String>,
}

impl Default for FailedWebhookEventsListParams {
    /// No filters at all.
    fn default() -> (r: Self)
        ensures
            r.limit is None,
            r.created_before is None,
    {
        FailedWebhookEventsListParams { limit: Option::None, created_before: Option::None }
    }
}

/// A webhook delivery that failed.
#[derive(Clone, Debug, PartialEq, Eq)]
pub struct FailedWebhookEvent {
    pub id: String,
    pub created_at: String,
    pub updated_at: String,
    pub webook_id: String,
    pub webhook_url: String,
    pub payload: String,
    pub last_sent_date: Option<String>,
}

impl FailedWebhookEventsListParams {
    /// The parameters in declaration order: `limit`, `created_before`.
    pub open spec fn spec_params(&self) -> Seq<(Seq<char>, Option<Seq<char>>)> {
        seq![
            ("limit"@, spec_opt_decimal(self.limit)),
            ("created_before"@, spec_opt_str(self.created_before)),
        ]
    }

    /// The query fragment of the filters.
    pub open spec fn spec_query(&self) -> Seq<char> {
        spec_query_string(self.spec_params())
    }

    /// Renders the filters as a query fragment: each present filter
    /// percent-encoded, joined with `&`, the first prefixed with `?`;
    /// absent filters contribute nothing.
    pub fn query_string(&self) -> (r: String)
        ensures
            r@ == self.spec_query(),
    {
        let mut query = String::new();
        let ghost mut done: Seq<(Seq<char>, Option<Seq<char>>)> = Seq::empty();
        let limit_rendered = match self.limit {
            Option::Some(l) => Option::Some(text::decimal_string(l)),
            Option::None => Option::None,
        };
        proof {
            lemma_query_string_push(done, "limit"@, spec_opt_decimal(self.limit));
        }
        append_query_param(&mut query, "limit", opt_as_str(&limit_rendered));
        proof {
            done = done.push(("limit"@, spec_opt_decimal(self.limit)));
        }
        assert(query@ == spec_query_string(done));
        proof {
            lemma_query_string_push(done, "created_before"@, spec_opt_str(self.created_before));
        }
        append_query_param(&mut query, "created_before", opt_as_str(&self.created_before));
        proof {
            done = done.push(("created_before"@, spec_opt_str(self.created_before)));
        }
        assert(query@ == spec_query_string(done));
        assert(done =~= self.spec_params());
        query
    }
}

/// The webhook registration request with its already JSON-encoded payload.
pub fn create<E: Environment>(env: &E, webhook: Vec<u8>) -> (r: (HttpMethod, RevolutEndpoint))
    ensures
        r.0 matches HttpMethod::Post { body: b } && (b matches Option::Some(inner) && (
        inner matches Body::Json(j) && j@ == webhook@)),
        r.1.0@ == env.spec_uri("2.0"@, "/webhooks"@),
{
    (HttpMethod::Post { body: Option::Some(Body::Json(webhook)) }, env.uri("2.0", "/webhooks"))
}

/// The webhook-list request.
pub fn list<E: Environment>(env: &E) -> (r: (HttpMethod, RevolutEndpoint))
    ensures
        r.0 is Get,
        r.1.0@ == env.spec_uri("2.0"@, "/webhooks"@),
{
    (HttpMethod::Get, env.uri("2.0", "/webhooks"))
}

/// The single-webhook request.
pub fn retrieve<E: Environment>(env: &E, webhook_id: &str) -> (r: (HttpMethod, RevolutEndpoint))
    ensures
        r.0 is Get,
        r.1.0@ == env.spec_uri("2.0"@, "/webhooks/"@ + webhook_id@),
{
    let path = text::concat2("/webhooks/", webhook_id);
    (HttpMethod::Get, env.uri("2.0", path.as_str()))
}

/// The webhook update request with its already JSON-encoded payload.
pub fn update<E: Environment>(env: &E, webhook_id: &str, webhook: Vec<u8>) -> (r: (
    HttpMethod,
    RevolutEndpoint,
))
    ensures
        r.0 matches HttpMethod::Patch { body: b } && (b matches Option::Some(inner) && (
        inner matches Body::Json(j) && j@ == webhook@)),
        r.1.0@ == env.spec_uri("2.0"@, "/webhooks/"@ + webhook_id@),
{
    let path = text::concat2("/webhooks/", webhook_id);
    (HttpMethod::Patch { body: Option::Some(Body::Json(webhook)) }, env.uri("2.0", path.as_str()))
}

/// The webhook deletion request.
pub fn delete<E: Environment>(env: &E, webhook_id: &str) -> (r: (HttpMethod, RevolutEndpoint))
    ensures
        r.0 is Delete,
        r.1.0@ == env.spec_uri("2.0"@, "/webhooks/"@ + webhook_id@),
{
    let path = text::concat2("/webhooks/", webhook_id);
    (HttpMethod::Delete, env.uri("2.0", path.as_str()))
}

/// The signing-secret rotation request with its already JSON-encoded
/// payload; this endpoint lives under the first API version.
pub fn rotate_signing_secret<E: Environment>(
    env: &E,
    webhook_id: &str,
    rotate_webhook_signing_secret: Vec<u8>,
) -> (r: (HttpMethod, RevolutEndpoint))
    ensures
        r.0 matches HttpMethod::Post { body: b } && (b matches Option::Some(inner) && (
        inner matches Body::Json(j) && j@ == rotate_webhook_signing_secret@)),
        r.1.0@ == env.spec_uri("1.0"@, "/webhooks/"@ + webhook_id@ + "/rotate-signing-secret"@),
{
    let path = text::concat3("/webhooks/", webhook_id, "/rotate-signing-secret");
    (
        HttpMethod::Post { body: Option::Some(Body::Json(rotate_webhook_signing_secret)) },
        env.uri("1.0", path.as_str()),
    )
}

/// The failed-event list request of one webhook, with its filters.
pub fn failed_webhook_events<E: Environment>(
    env: &E,
    webhook_id: &str,
    list_params: &FailedWebhookEventsListParams,
) -> (r: (HttpMethod, RevolutEndpoint))
    ensures
        r.0 is Get,
        r.1.0@ == env.spec_uri(
            "2.0"@,
            "/webhooks/"@ + webhook_id@ + "/failed-events"@ + list_params.spec_query(),
        ),
{
    let query = list_params.query_string();
    let path = text::concat4("/webhooks/", webhook_id, "/failed-events", query.as_str());
    (HttpMethod::Get, env.uri("2.0", path.as_str()))
}

} // verus!
