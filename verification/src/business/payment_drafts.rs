//! Business payment drafts: the payload shapes and the request
//! descriptions of the endpoints.

use vstd::prelude::*;
use crate::client::{Body, Environment, HttpMethod, RevolutEndpoint};
use crate::text;

verus! {

/// The list of payment orders held as drafts.
#[derive(Clone, Debug, PartialEq, Eq)]
pub struct PaymentDraft {
    pub payment_orders: Vec<PaymentOrder>,
}

/// One drafted payment order.
#[derive(Clone, Debug, PartialEq, Eq)]
pub struct PaymentOrder {
    pub id: String,
    pub scheduled_for: Option<String>,
    pub title: Option<String>,
    pub payments_count: u64,
}

/// The receiver of a drafted payment.
#[derive(Clone, Debug, PartialEq, Eq)]
pub struct PaymentReceiver {
    pub counterparty_id: Option<String>,
    pub account_id: Option<String>,
    pub card_id: Option<String>,
}

/// The identifier of a freshly created payment draft.
#[derive(Clone, Debug, PartialEq, Eq)]
pub struct CreatePaymentDraft {
    pub id: String,
}

/// The lifecycle state of a drafted payment, named on the wire in snake
/// case.
#[derive(Clone, Copy, Debug, PartialEq, Eq, Structural)]
pub enum PaymentState {
    Created,
    Pending,
    Completed,
    Reverted,
    Declined,
    Cancelled,
    Failed,
    Deleted,
}

/// The payment-draft list request.
pub fn list<E: Environment>(env: &E) -> (r: (HttpMethod, RevolutEndpoint))
    ensures
        r.0 is Get,
        r.1.0@ == env.spec_uri("1.0"@, "/payment-drafts"@),
{
    (HttpMethod::Get, env.uri("1.0", "/payment-drafts"))
}

/// The payment-draft creation request with its already JSON-encoded
/// payload.
pub fn create<E: Environment>(env: &E, payment_draft: Vec<u8>) -> (r: (HttpMethod, RevolutEndpoint))
    ensures
        r.0 matches HttpMethod::Post { body: b } && (b matches Option::Some(inner) && (
        inner matches Body::Json(j) && j@ == payment_draft@)),
        r.1.0@ == env.spec_uri("1.0"@, "/payment-drafts"@),
{
    (
        HttpMethod::Post { body: Option::Some(Body::Json(payment_draft)) },
        env.uri("1.0", "/payment-drafts"),
    )
}

/// The single payment-draft request.
pub fn retrieve<E: Environment>(env: &E, payment_draft_id: &str) -> (r: (
    HttpMethod,
    RevolutEndpoint,
))
    ensures
        r.0 is Get,
        r.1.0@ == env.spec_uri("1.0"@, "/payment-drafts/"@ + payment_draft_id@),
{
    let path = text::concat2("/payment-drafts/", payment_draft_id);
    (HttpMethod::Get, env.uri("1.0", path.as_str()))
}

/// The payment-draft deletion request.
pub fn delete<E: Environment>(env: &E, payment_draft_id: &str) -> (r: (HttpMethod, RevolutEndpoint))
    ensures
        r.0 is Delete,
        r.1.0@ == env.spec_uri("1.0"@, "/payment-drafts/"@ + payment_draft_id@),
{
    let path = text::concat2("/payment-drafts/", payment_draft_id);
    (HttpMethod::Delete, env.uri("1.0", path.as_str()))
}

} // verus!
