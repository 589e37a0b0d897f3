//! Merchant payments: the payload shapes and the request description of
//! the single-payment endpoint.

use vstd::prelude::*;
use crate::client::{Environment, HttpMethod, RevolutEndpoint};
use crate::text;

verus! {

/// The lifecycle state of a payment.
#[derive(Clone, Copy, Debug, PartialEq, Eq, Structural)]
pub enum PaymentState {
    Pending,
    AuthenticationChallenge,
    AuthenticationVerified,
    AuthorisationStarted,
    AuthorisationPassed,
    Authorised,
    CaptureStarted,
    Captured,
    RefundValidated,
    CancellationStarted,
    Declining,
    Completing,
    Cancelling,
    Failing,
    Completed,
    Declined,
    SoftDeclined,
    Cancelled,
    Failed,
}

/// The verification checks run on a payment.
#[derive(Clone, Debug, PartialEq, Eq)]
pub struct Checks {
    pub three_ds: Option<ThreeDs>,
    pub cvv_verification: Option<String>,
    pub address: Option<String>,
    pub postcode: Option<String>,
    pub cardholder: Option<String>,
}

/// The three-domain-secure outcome of a payment.
#[derive(Clone, Debug, PartialEq, Eq)]
pub struct ThreeDs {
    pub eci: Option<String>,
    pub state: Option<ThreeDsState>,
    pub version: Option<String>,
}

/// The state of a three-domain-secure check.
#[derive(Clone, Copy, Debug, PartialEq, Eq, Structural)]
pub enum ThreeDsState {
    Verified,
    Failed,
    Challenge,
}

/// The Revolut Pay account a payment drew on.
#[derive(Clone, Debug, PartialEq, Eq)]
pub struct RevolutPayAccount {
    pub id: String,
    pub fingerprint: Option<String>,
}

/// An authentication challenge the payer must complete.
#[derive(Clone, Debug, PartialEq, Eq)]
pub struct AuthenticationChallenge {
    pub type_: String,
    pub acs_url: String,
}

/// The billing address of a payment.
#[derive(Clone, Debug, PartialEq, Eq)]
pub struct BillingAddress {
    pub street_line_1: Option<String>,
    pub street_line_2: Option<String>,
    pub region: Option<String>,
    pub city: Option<String>,
    pub country_code: String,
    pub postcode: String,
}

/// The single-payment request.
pub fn retrieve<E: Environment>(env: &E, payment_id: &str) -> (r: (HttpMethod, RevolutEndpoint))
    requires
        env.spec_supports_unversioned(),
    ensures
        r.0 is Get,
        r.1.0@ == env.spec_unversioned_uri("/payments/"@ + payment_id@),
{
    let path = text::concat2("/payments/", payment_id);
    (HttpMethod::Get, env.unversioned_uri(path.as_str()))
}

} // verus!
