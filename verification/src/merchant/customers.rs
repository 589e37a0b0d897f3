//! Merchant customers: the payload shapes and the request descriptions of
//! the endpoints, including the saved payment methods of a customer.

use vstd::prelude::*;
use crate::client::{Body, Environment, HttpMethod, RevolutEndpoint};
use crate::text;

verus! {

/// A customer creation or update payload.
#[derive(Clone, Debug, PartialEq, Eq)]
pub struct CustomerRequest {
    pub full_name: Option<String>,
    pub business_name: Option<String>,
    pub email: Option<String>,
    pub phone: Option<String>,
    pub date_of_birth: Option<String>,
}

/// A customer as the backend reports it.
#[derive(Clone, Debug, PartialEq, Eq)]
pub struct Customer {
    pub id: String,
    pub full_name: Option<String>,
    pub business_name: Option<String>,
    pub phone: Option<String>,
    pub created_at: String,
    pub updated_at: String,
    pub email: String,
    pub date_of_birth: Option<String>,
}

/// The kind of a saved payment method.
#[derive(Clone, Copy, Debug, PartialEq, Eq, Structural)]
pub enum PaymentMethodType {
    Card,
    RevolutPay,
}

/// The card details of a saved payment method.
#[derive(Clone, Debug, PartialEq, Eq)]
pub struct PaymentMethodDetails {
    pub bin: Option<String>,
    pub last4: Option<String>,
    pub expiry_month: Option<u8>,
    pub expiry_year: Option<u8>,
    pub cardholder_name: Option<String>,
    pub billing_address: Option<BillingAddress>,
    pub brand: Option<String>,
    pub funding: Option<String>,
    pub issuer: Option<String>,
    pub issuer_country: Option<String>,
    pub created_at: Option<String>,
}

/// A billing address of a saved payment method.
#[derive(Clone, Debug, PartialEq, Eq)]
pub struct BillingAddress {
    pub street_line_1: Option<String>,
    pub street_line_2: Option<String>,
    pub post_code: Option<String>,
    pub city: Option<String>,
    pub region: Option<String>,
    pub country_code: Option<String>,
}

/// On whose behalf a payment method is saved.
#[derive(Clone, Copy, Debug, PartialEq, Eq, Structural)]
pub enum PaymentMethodSavedForRequest {
    Customer,
}

/// A payment-method update payload.
#[derive(Clone, Debug, PartialEq, Eq)]
pub struct PaymentMethodRequest {
    pub saved_for: PaymentMethodSavedForRequest,
}

/// The customer creation request with its already JSON-encoded payload.
pub fn create<E: Environment>(env: &E, customer: Vec<u8>) -> (r: (HttpMethod, RevolutEndpoint))
    ensures
        r.0 matches HttpMethod::Post { body: b } && (b matches Option::Some(inner) && (
        inner matches Body::Json(j) && j@ == customer@)),
        r.1.0@ == env.spec_uri("1.0"@, "/customers"@),
{
    (HttpMethod::Post { body: Option::Some(Body::Json(customer)) }, env.uri("1.0", "/customers"))
}

/// The customer-list request.
pub fn list<E: Environment>(env: &E) -> (r: (HttpMethod, RevolutEndpoint))
    ensures
        r.0 is Get,
        r.1.0@ == env.spec_uri("1.0"@, "/customers"@),
{
    (HttpMethod::Get, env.uri("1.0", "/customers"))
}

/// The single-customer request.
pub fn retrieve<E: Environment>(env: &E, customer_id: &str) -> (r: (HttpMethod, RevolutEndpoint))
    ensures
        r.0 is Get,
        r.1.0@ == env.spec_uri("1.0"@, "/customers/"@ + customer_id@),
{
    let path = text::concat2("/customers/", customer_id);
    (HttpMethod::Get, env.uri("1.0", path.as_str()))
}

/// The customer update request with its already JSON-encoded payload.
pub fn update<E: Environment>(env: &E, customer_id: &str, customer: Vec<u8>) -> (r: (
    HttpMethod,
    RevolutEndpoint,
))
    ensures
        r.0 matches HttpMethod::Patch { body: b } && (b matches Option::Some(inner) && (
        inner matches Body::Json(j) && j@ == customer@)),
        r.1.0@ == env.spec_uri("1.0"@, "/customers/"@ + customer_id@),
{
    let path = text::concat2("/customers/", customer_id);
    (HttpMethod::Patch { body: Option::Some(Body::Json(customer)) }, env.uri("1.0", path.as_str()))
}

/// The customer deletion request.
pub fn delete<E: Environment>(env: &E, customer_id: &str) -> (r: (HttpMethod, RevolutEndpoint))
    ensures
        r.0 is Delete,
        r.1.0@ == env.spec_uri("1.0"@, "/customers/"@ + customer_id@),
{
    let path = text::concat2("/customers/", customer_id);
    (HttpMethod::Delete, env.uri("1.0", path.as_str()))
}

/// The payment-method list request of one customer.
pub fn payment_methods<E: Environment>(env: &E, customer_id: &str) -> (r: (
    HttpMethod,
    RevolutEndpoint,
))
    ensures
        r.0 is Get,
        r.1.0@ == env.spec_uri("1.0"@, "/customers/"@ + customer_id@ + "/payment-methods"@),
{
    let path = text::concat3("/customers/", customer_id, "/payment-methods");
    (HttpMethod::Get, env.uri("1.0", path.as_str()))
}

/// The single payment-method request of one customer.
pub fn payment_method<E: Environment>(
    env: &E,
    customer_id: &str,
    payment_method_id: &str,
) -> (r: (HttpMethod, RevolutEndpoint))
    ensures
        r.0 is Get,
        r.1.0@ == env.spec_uri(
            "1.0"@,
            "/customers/"@ + customer_id@ + "/payment-methods/"@ + payment_method_id@,
        ),
{
    let path = text::concat4("/customers/", customer_id, "/payment-methods/", payment_method_id);
    (HttpMethod::Get, env.uri("1.0", path.as_str()))
}

/// The payment-method update request with its already JSON-encoded
/// payload.
pub fn update_payment_method<E: Environment>(
    env: &E,
    customer_id: &str,
    payment_method_id: &str,
    payment_method: Vec<u8>,
) -> (r: (HttpMethod, RevolutEndpoint))
    ensures
        r.0 matches HttpMethod::Patch { body: b } && (b matches Option::Some(inner) && (
        inner matches Body::Json(j) && j@ == payment_method@)),
        r.1.0@ == env.spec_uri(
            "1.0"@,
            "/customers/"@ + customer_id@ + "/payment-methods/"@ + payment_method_id@,
        ),
{
    let path = text::concat4("/customers/", customer_id, "/payment-methods/", payment_method_id);
    (
        HttpMethod::Patch { body: Option::Some(Body::Json(payment_method)) },
        env.uri("1.0", path.as_str()),
    )
}

/// The payment-method deletion request of one customer.
pub fn delete_payment_method<E: Environment>(
    env: &E,
    customer_id: &str,
    payment_method_id: &str,
) -> (r: (HttpMethod, RevolutEndpoint))
    ensures
        r.0 is Delete,
        r.1.0@ == env.spec_uri(
            "1.0"@,
            "/customers/"@ + customer_id@ + "/payment-methods/"@ + payment_method_id@,
        ),
{
    let path = text::concat4("/customers/", customer_id, "/payment-methods/", payment_method_id);
    (HttpMethod::Delete, env.uri("1.0", path.as_str()))
}

} // verus!
