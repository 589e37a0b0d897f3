//! Business transfers: the payload shapes and the request descriptions of
//! the endpoints.

use vstd::prelude::*;
use crate::client::{Body, Environment, HttpMethod, RevolutEndpoint};

verus! {

/// The backend's report of a payment.
#[derive(Clone, Debug, PartialEq, Eq)]
pub struct Pay {
    pub id: String,
    pub state: TransferState,
    pub created_at: String,
    pub completed_at: Option<String>,
}

/// The receiver of a payment.
#[derive(Clone, Debug, PartialEq, Eq)]
pub struct TransferReceiver {
    pub counterparty_id: String,
    pub account_id: Option<String>,
    pub card_id: Option<String>,
}

/// A reason code transfers to some destinations must carry.
#[derive(Clone, Debug, PartialEq, Eq)]
pub struct TransferReason {
    pub country: String,
    pub currency: String,
    pub code: String,
    pub description: String,
}

/// A reason code exchanges to some destinations must carry.
#[derive(Clone, Debug, PartialEq, Eq)]
pub struct ExchangeReason {
    pub code: String,
    pub name: String,
}

/// The backend's report of a transfer.
#[derive(Clone, Debug, PartialEq, Eq)]
pub struct Transfer {
    pub id: String,
    pub state: TransferState,
    pub created_at: String,
    pub completed_at: Option<String>,
}

/// The lifecycle state of a transfer or payment.
#[derive(Clone, Copy, Debug, PartialEq, Eq, Structural)]
pub enum TransferState {
    Created,
    Pending,
    Completed,
    Declined,
    Failed,
    Reverted,
}

/// The transfer-reason list request.
pub fn get_transfer_reasons<E: Environment>(env: &E) -> (r: (HttpMethod, RevolutEndpoint))
    ensures
        r.0 is Get,
        r.1.0@ == env.spec_uri("1.0"@, "/transfer-reasons"@),
{
    (HttpMethod::Get, env.uri("1.0", "/transfer-reasons"))
}

/// The exchange-reason list request.
pub fn get_exchange_reasons<E: Environment>(env: &E) -> (r: (HttpMethod, RevolutEndpoint))
    ensures
        r.0 is Get,
        r.1.0@ == env.spec_uri("1.0"@, "/exchange-reasons"@),
{
    (HttpMethod::Get, env.uri("1.0", "/exchange-reasons"))
}

/// The transfer request with its already JSON-encoded payload.
pub fn transfer<E: Environment>(env: &E, transfer_params: Vec<u8>) -> (r: (
    HttpMethod,
    RevolutEndpoint,
))
    ensures
        r.0 matches HttpMethod::Post { body: b } && (b matches Option::Some(inner) && (
        inner matches Body::Json(j) && j@ == transfer_params@)),
        r.1.0@ == env.spec_uri("1.0"@, "/transfer"@),
{
    (HttpMethod::Post { body: Option::Some(Body::Json(transfer_params)) }, env.uri("1.0", "/transfer"))
}

/// The payment request with its already JSON-encoded payload.
pub fn pay<E: Environment>(env: &E, pay_params: Vec<u8>) -> (r: (HttpMethod, RevolutEndpoint))
    ensures
        r.0 matches HttpMethod::Post { body: b } && (b matches Option::Some(inner) && (
        inner matches Body::Json(j) && j@ == pay_params@)),
        r.1.0@ == env.spec_uri("1.0"@, "/pay"@),
{
    (HttpMethod::Post { body: Option::Some(Body::Json(pay_params)) }, env.uri("1.0", "/pay"))
}

} // verus!
