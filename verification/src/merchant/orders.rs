//! Merchant orders: the payload shapes (customers, line-item parts,
//! industry data companions, order payments) and the request descriptions
//! of the endpoints, including the framed capture body.

use vstd::prelude::*;
use vstd::string::StrSliceExecFns;
use crate::client::{Body, Environment, HttpMethod, RevolutEndpoint};
use crate::text;

verus! {

/// The customer attached to an order.
#[derive(Clone, Debug, PartialEq, Eq)]
pub struct Customer {
    pub id: Option<String>,
    pub full_name: Option<String>,
    pub phone: Option<String>,
    pub email: Option<String>,
    pub date_of_birth: Option<String>,
}

/// Whether a line item is goods or a service.
#[derive(Clone, Copy, Debug, PartialEq, Eq, Structural)]
pub enum LineItemType {
    Physical,
    Service,
}

/// A discount on a line item, in minor units.
#[derive(Clone, Debug, PartialEq, Eq)]
pub struct Discount {
    pub name: String,
    pub amount: u64,
}

/// A tax on a line item, in minor units.
#[derive(Clone, Debug, PartialEq, Eq)]
pub struct Tax {
    pub name: String,
    pub amount: u64,
}

/// A passenger of an airline booking.
#[derive(Clone, Debug, PartialEq, Eq)]
pub struct Passenger {
    pub first_name: String,
    pub last_name: String,
}

/// One leg of an airline journey.
#[derive(Clone, Debug, PartialEq, Eq)]
pub struct JourneyLeg {
    pub sequence: String,
    pub departure_airport_code: String,
    pub arrival_airport_code: String,
    pub flight_number: Option<String>,
    pub fare_base_code: Option<String>,
    pub travel_date: String,
    pub airline_name: String,
    pub airline_code: String,
}

/// The status of a crypto transaction attached to an order.
#[derive(Clone, Copy, Debug, PartialEq, Eq, Structural)]
pub enum TransactionStatus {
    Pending,
    Failed,
    Cancelled,
    Completed,
}

/// A postal address on an order.
#[derive(Clone, Debug, PartialEq, Eq)]
pub struct Address {
    pub street_line_1: String,
    pub street_line_2: Option<String>,
    pub region: Option<String>,
    pub city: String,
    pub country_code: String,
    pub country_subdivision_code: Option<String>,
    pub postcode: String,
}

/// A marketplace subseller.
#[derive(Clone, Debug, PartialEq, Eq)]
pub struct Subseller {
    pub id: String,
    pub name: String,
    pub website: String,
    pub phone: String,
    pub address: Address,
}

/// The venue of an event or lodging booking.
#[derive(Clone, Debug, PartialEq, Eq)]
pub struct Location {
    pub street_line_1: String,
    pub street_line_2: Option<String>,
    pub region: Option<String>,
    pub city: String,
    pub country_code: String,
    pub postcode: String,
}

/// A ticket of an event booking.
#[derive(Clone, Debug, PartialEq, Eq)]
pub struct Ticket {
    pub id: String,
    pub transferable: Option<bool>,
    pub refundability: Option<String>,
}

/// An event booking.
#[derive(Clone, Debug, PartialEq, Eq)]
pub struct Event {
    pub start_date: Option<String>,
    pub end_date: Option<String>,
    pub supplier: Option<String>,
    pub supplier_payment_date: Option<String>,
    pub name: Option<String>,
    pub location: Option<Location>,
    pub category: String,
    pub market: String,
    pub tickets: Vec<Ticket>,
}

/// A guest of a lodging booking.
#[derive(Clone, Debug, PartialEq, Eq)]
pub struct Guest {
    pub first_name: String,
    pub last_name: String,
}

/// A shipping contact.
#[derive(Clone, Debug, PartialEq, Eq)]
pub struct Contact {
    pub name: Option<String>,
    pub email: Option<String>,
    pub phone: Option<String>,
}

/// One shipment of an order.
#[derive(Clone, Debug, PartialEq, Eq)]
pub struct Shipment {
    pub shipping_company_name: String,
    pub tracking_number: String,
    pub estimated_delivery_date: Option<String>,
    pub tracking_url: Option<String>,
}

/// The shipping section of an order.
#[derive(Clone, Debug, PartialEq, Eq)]
pub struct Shipping {
    pub address: Option<Address>,
    pub contact: Option<Contact>,
    pub shipments: Option<Vec<Shipment>>,
}

/// The merchant's own order data.
#[derive(Clone, Debug, PartialEq, Eq)]
pub struct MerchantOrderData {
    pub url: Option<String>,
    pub reference: Option<String>,
}

/// A scheduled upcoming payment attached to an order.
#[derive(Clone, Debug, PartialEq, Eq)]
pub struct UpcomingPaymentData {
    pub date: String,
    pub payment_method_id: String,
}

/// The kind of a saved payment method used to pay an order.
#[derive(Clone, Copy, Debug, PartialEq, Eq, Structural)]
pub enum SavedPaymentMethodType {
    Card,
    RevolutPay,
}

/// Who initiated a payment with a saved payment method.
#[derive(Clone, Copy, Debug, PartialEq, Eq, Structural)]
pub enum SavedPaymentMethodInitiator {
    Customer,
    Merchant,
}

/// The environment a saved payment method was captured in.
#[derive(Clone, Copy, Debug, PartialEq, Eq, Structural)]
pub enum SavedPaymentMethodEnvironment {
    Browser,
}

/// A saved payment method an order is paid with.
#[derive(Clone, Debug, PartialEq, Eq)]
pub struct SavedPaymentMethod {
    pub type_: SavedPaymentMethodType,
    pub id: String,
    pub initiator: SavedPaymentMethodInitiator,
    pub environment: String,
}

/// The kind of an order.
#[derive(Clone, Copy, Debug, PartialEq, Eq, Structural)]
pub enum Type {
    Payment,
    PaymentRequest,
    Refund,
    Chargeback,
    ChargebackReversal,
    CreditReimbursement,
}

/// The lifecycle state of an order.
#[derive(Clone, Copy, Debug, PartialEq, Eq, Structural)]
pub enum State {
    Pending,
    Processing,
    Authorised,
    Completed,
    Cancelled,
    Failed,
}

/// The kind of payment instrument an order payment used.
#[derive(Clone, Copy, Debug, PartialEq, Eq, Structural)]
pub enum PaymentType {
    ApplePay,
    Card,
    GooglePay,
    RevolutPayCard,
    RevolutPayAccount,
}

/// The three-domain-secure outcome of a payment.
#[derive(Clone, Debug, PartialEq, Eq)]
pub struct ThreeDs {
    pub eci: Option<String>,
    pub state: Option<ThreeDsState>,
    pub version: Option<String>,
}

/// The state of a three-domain-secure check.
#[derive(Clone, Copy, Debug, PartialEq, Eq, Structural)]
pub enum ThreeDsState {
    Verified,
    Failed,
    Challenge,
}

/// The verification checks run on a payment.
#[derive(Clone, Debug, PartialEq, Eq)]
pub struct Checks {
    pub three_ds: Option<ThreeDs>,
    pub cvv_verification: Option<String>,
    pub address: Option<String>,
    pub postcode: Option<String>,
    pub cardholder: Option<String>,
}

/// An authentication challenge the payer must complete.
#[derive(Clone, Debug, PartialEq, Eq)]
pub struct AuthenticationChallenge {
    pub type_: String,
    pub acs_url: String,
}

/// The lifecycle state of an order payment (coarse form).
#[derive(Clone, Copy, Debug, PartialEq, Eq, Structural)]
pub enum PaymentState {
    Pending,
    Processing,
    Authorised,
    Completed,
    Cancelled,
    Failed,
}

/// A three-domain-secure challenge of an order payment.
#[derive(Clone, Debug, PartialEq, Eq)]
pub struct OrderAuthenticationChallengeThreeDs {
    pub type_: String,
    pub acs_url: String,
}

/// A three-domain-secure fingerprinting step of an order payment.
#[derive(Clone, Debug, PartialEq, Eq)]
pub struct OrderAuthenticationChallengeThreeDsFingerprint {
    pub type_: String,
    pub fingerprint_url: String,
    pub fingerprint_data: String,
}

/// The authentication challenge attached to an order payment.
#[derive(Clone, Debug, PartialEq, Eq)]
pub enum OrderAuthenticationChallenge {
    ThreeDs(OrderAuthenticationChallengeThreeDs),
    ThreeDsFingerprint(OrderAuthenticationChallengeThreeDsFingerprint),
}

/// One payment of an order.
#[derive(Clone, Debug, PartialEq, Eq)]
pub struct OrderPayment {
    pub id: String,
    pub order_id: String,
    pub payment_method: OrderPaymentMethod,
    pub state: Option<OrderPaymentState>,
    pub authentication_challenge: Option<OrderAuthenticationChallenge>,
}

/// The lifecycle state of an order payment (fine form).
#[derive(Clone, Copy, Debug, PartialEq, Eq, Structural)]
pub enum OrderPaymentState {
    Pending,
    AuthenticationChallenge,
    AuthenticationVerified,
    AuthorisationStarted,
    AuthorisationPassed,
    Authorised,
    CaptureStarted,
    Captured,
    RefundValidated,
    RefundStarted,
    CancellationStarted,
    Declining,
    Completing,
    Cancelling,
    Failing,
    Completed,
    Declined,
    SoftDeclined,
    Cancelled,
    Failed,
}

/// The instrument an order payment used.
#[derive(Clone, Debug, PartialEq, Eq)]
pub enum OrderPaymentMethod {
    RevolutPay(OrderPaymentMethodRevolutPay),
    Card(OrderPaymentMethodCard),
}

/// The Revolut Pay instrument of an order payment.
#[derive(Clone, Debug, PartialEq, Eq)]
pub enum OrderPaymentMethodRevolutPay {
    Account(OrderPaymentMethodRevolutPayAccount),
    Card(OrderPaymentMethodRevolutPayCard),
}

/// The card instrument of an order payment.
#[derive(Clone, Debug, PartialEq, Eq)]
pub struct OrderPaymentMethodCard {
    pub id: Option<String>,
    pub brand: Option<String>,
    pub last_four: Option<String>,
}

/// The Revolut Pay account instrument of an order payment.
#[derive(Clone, Debug, PartialEq, Eq)]
pub struct OrderPaymentMethodRevolutPayAccount {
    pub id: Option<String>,
}

/// The Revolut Pay card instrument of an order payment.
#[derive(Clone, Debug, PartialEq, Eq)]
pub struct OrderPaymentMethodRevolutPayCard {
    pub id: Option<String>,
    pub brand: Option<String>,
    pub last_four: Option<String>,
}

/// A refund payload, in minor units.
#[derive(Clone, Debug, PartialEq, Eq)]
pub struct RefundRequest {
    pub amount: u64,
    pub currency: String,
}

/// The order creation request with its already JSON-encoded payload.
pub fn create<E: Environment>(env: &E, order: Vec<u8>) -> (r: (HttpMethod, RevolutEndpoint))
    requires
        env.spec_supports_unversioned(),
    ensures
        r.0 matches HttpMethod::Post { body: b } && (b matches Option::Some(inner) && (
        inner matches Body::Json(j) && j@ == order@)),
        r.1.0@ == env.spec_unversioned_uri("/orders"@),
{
    (HttpMethod::Post { body: Option::Some(Body::Json(order)) }, env.unversioned_uri("/orders"))
}

/// The single-order request.
pub fn retrieve<E: Environment>(env: &E, order_id: &str) -> (r: (HttpMethod, RevolutEndpoint))
    requires
        env.spec_supports_unversioned(),
    ensures
        r.0 is Get,
        r.1.0@ == env.spec_unversioned_uri("/orders/"@ + order_id@),
{
    let path = text::concat2("/orders/", order_id);
    (HttpMethod::Get, env.unversioned_uri(path.as_str()))
}

/// The order update request with its already JSON-encoded payload.
pub fn update<E: Environment>(env: &E, order_id: &str, order: Vec<u8>) -> (r: (
    HttpMethod,
    RevolutEndpoint,
))
    requires
        env.spec_supports_unversioned(),
    ensures
        r.0 matches HttpMethod::Patch { body: b } && (b matches Option::Some(inner) && (
        inner matches Body::Json(j) && j@ == order@)),
        r.1.0@ == env.spec_unversioned_uri("/orders/"@ + order_id@),
{
    let path = text::concat2("/orders/", order_id);
    (HttpMethod::Patch { body: Option::Some(Body::Json(order)) }, env.unversioned_uri(path.as_str()))
}

/// The order-list request; this endpoint lives under the versioned path.
pub fn list<E: Environment>(env: &E) -> (r: (HttpMethod, RevolutEndpoint))
    ensures
        r.0 is Get,
        r.1.0@ == env.spec_uri("1.0"@, "/orders"@),
{
    (HttpMethod::Get, env.uri("1.0", "/orders"))
}

/// The JSON body of a capture request: an object with the captured amount
/// alone.
pub open spec fn spec_capture_body(amount: u64) -> Seq<char> {
    "{\"amount\":"@ + text::spec_decimal(amount as int) + "}"@
}

/// The order capture request; its JSON body carries the captured amount in
/// minor units and is framed here.
pub fn capture<E: Environment>(env: &E, order_id: &str, amount: u64) -> (r: (
    HttpMethod,
    RevolutEndpoint,
))
    requires
        env.spec_supports_unversioned(),
    ensures
        r.0 matches HttpMethod::Post { body: b } && (b matches Option::Some(inner) && (
        inner matches Body::Json(j) && j@ == vstd::utf8::encode_utf8(spec_capture_body(amount)))),
        r.1.0@ == env.spec_unversioned_uri("/orders/"@ + order_id@ + "/capture"@),
{
    let rendered = text::decimal_string(amount);
    let body = text::concat3("{\"amount\":", rendered.as_str(), "}");
    let body_bytes = body.as_str().as_bytes_vec();
    let path = text::concat3("/orders/", order_id, "/capture");
    (
        HttpMethod::Post { body: Option::Some(Body::Json(body_bytes)) },
        env.unversioned_uri(path.as_str()),
    )
}

/// The order cancellation request: a bodyless `Post`.
pub fn cancel<E: Environment>(env: &E, order_id: &str) -> (r: (HttpMethod, RevolutEndpoint))
    requires
        env.spec_supports_unversioned(),
    ensures
        r.0 matches HttpMethod::Post { body: b } && b is None,
        r.1.0@ == env.spec_unversioned_uri("/orders/"@ + order_id@ + "/cancel"@),
{
    let path = text::concat3("/orders/", order_id, "/cancel");
    (HttpMethod::Post { body: Option::None }, env.unversioned_uri(path.as_str()))
}

/// The order refund request with its already JSON-encoded payload.
pub fn refund<E: Environment>(env: &E, order_id: &str, refund_request: Vec<u8>) -> (r: (
    HttpMethod,
    RevolutEndpoint,
))
    requires
        env.spec_supports_unversioned(),
    ensures
        r.0 matches HttpMethod::Post { body: b } && (b matches Option::Some(inner) && (
        inner matches Body::Json(j) && j@ == refund_request@)),
        r.1.0@ == env.spec_unversioned_uri("/orders/"@ + order_id@ + "/refund"@),
{
    let path = text::concat3("/orders/", order_id, "/refund");
    (
        HttpMethod::Post { body: Option::Some(Body::Json(refund_request)) },
        env.unversioned_uri(path.as_str()),
    )
}

/// The order payment request; its payload is the already JSON-encoded
/// envelope object whose single `saved_payment_method` field holds the
/// saved payment method.
pub fn pay<E: Environment>(env: &E, order_id: &str, saved_payment_method: Vec<u8>) -> (r: (
    HttpMethod,
    RevolutEndpoint,
))
    requires
        env.spec_supports_unversioned(),
    ensures
        r.0 matches HttpMethod::Post { body: b } && (b matches Option::Some(inner) && (
        inner matches Body::Json(j) && j@ == saved_payment_method@)),
        r.1.0@ == env.spec_unversioned_uri("/orders/"@ + order_id@ + "/payments"@),
{
    let path = text::concat3("/orders/", order_id, "/payments");
    (
        HttpMethod::Post { body: Option::Some(Body::Json(saved_payment_method)) },
        env.unversioned_uri(path.as_str()),
    )
}

/// The payment-list request of one order.
pub fn payment_list<E: Environment>(env: &E, order_id: &str) -> (r: (HttpMethod, RevolutEndpoint))
    requires
        env.spec_supports_unversioned(),
    ensures
        r.0 is Get,
        r.1.0@ == env.spec_unversioned_uri("/orders/"@ + order_id@ + "/payments"@),
{
    let path = text::concat3("/orders/", order_id, "/payments");
    (HttpMethod::Get, env.unversioned_uri(path.as_str()))
}

} // verus!
