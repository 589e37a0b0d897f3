//! Request descriptions across the resource modules: paths, verbs and
//! capability gating by environment type.

use std::marker::PhantomData;

use revolut::business::simulations::{self, TransferStateRequest};
use revolut::business::team_members::{self, ListParams};
use revolut::business::webhooks_v2::{self, FailedWebhookEventsListParams};
use revolut::client::{Body, HttpMethod, ProductionEnvironment, SandboxEnvironment};

fn business_sandbox() -> SandboxEnvironment<revolut::BusinessClient> {
    SandboxEnvironment { client_type: PhantomData }
}

fn business_production() -> ProductionEnvironment<revolut::BusinessClient> {
    ProductionEnvironment { client_type: PhantomData }
}

fn merchant_production() -> ProductionEnvironment<revolut::MerchantClient> {
    ProductionEnvironment { client_type: PhantomData }
}

#[test]
fn simulated_transfer_state_is_part_of_the_path() {
    let (method, endpoint) =
        simulations::transfer_state_update(&business_sandbox(), "tx-1", TransferStateRequest::Revert);
    assert!(matches!(method, HttpMethod::Post { body: None }));
    assert_eq!(
        endpoint.0,
        "https://sandbox-b2b.revolut.com/api/1.0/sandbox/transactions/tx-1/revert"
    );
}

#[test]
fn team_member_list_is_a_production_capability() {
    let params = ListParams { created_before: None, limit: Some(5) };
    let (_, endpoint) = team_members::list(&business_production(), &params);
    assert_eq!(endpoint.0, "https://b2b.revolut.com/api/1.0/team-members?limit=5");
}

#[test]
fn webhook_rotation_lives_under_the_first_api_version() {
    let payload = b"{}".to_vec();
    let (method, endpoint) =
        webhooks_v2::rotate_signing_secret(&business_sandbox(), "wh-1", payload.clone());
    match method {
        HttpMethod::Post { body: Some(Body::Json(bytes)) } => assert_eq!(bytes, payload),
        _ => panic!("expected a JSON body"),
    }
    assert_eq!(
        endpoint.0,
        "https://sandbox-b2b.revolut.com/api/1.0/webhooks/wh-1/rotate-signing-secret"
    );
}

#[test]
fn failed_webhook_events_carry_their_filters() {
    let params = FailedWebhookEventsListParams {
        limit: Some(2),
        created_before: Some("2024-05-01T00:00:00Z".to_string()),
    };
    let (_, endpoint) = webhooks_v2::failed_webhook_events(&business_sandbox(), "wh-1", &params);
    assert_eq!(
        endpoint.0,
        "https://sandbox-b2b.revolut.com/api/2.0/webhooks/wh-1/failed-events?limit=2&created_before=2024-05-01T00%3A00%3A00Z"
    );
}

#[test]
fn expense_receipt_path_nests_both_identifiers() {
    let (_, endpoint) =
        revolut::business::expenses::expense_receipt(&business_production(), "e-1", "r-2");
    assert_eq!(
        endpoint.0,
        "https://b2b.revolut.com/api/1.0/expenses/e-1/receipts/r-2/content"
    );
}

#[test]
fn counterparty_deletion_uses_the_singular_path() {
    let (method, endpoint) =
        revolut::business::counterparties::delete(&business_production(), "cp-1");
    assert!(matches!(method, HttpMethod::Delete));
    assert_eq!(endpoint.0, "https://b2b.revolut.com/api/1.0/counterparty/cp-1");
}

#[test]
fn merchant_customer_payment_method_paths_nest_both_identifiers() {
    let env = merchant_production();
    let (_, endpoint) = revolut::merchant::customers::payment_method(&env, "c-1", "pm-2");
    assert_eq!(
        endpoint.0,
        "https://merchant.revolut.com/api/1.0/customers/c-1/payment-methods/pm-2"
    );
}

#[test]
fn report_download_addresses_the_file() {
    let env = merchant_production();
    let (_, endpoint) = revolut::merchant::report_runs::download(&env, "rr-1");
    assert_eq!(endpoint.0, "https://merchant.revolut.com/api//report-runs/rr-1/file");
}

#[test]
fn apple_pay_registration_is_a_production_capability() {
    let payload = b"{\"domain\":\"shop.example\"}".to_vec();
    let (method, endpoint) = revolut::merchant::apple_pay::register(&merchant_production(), payload);
    assert!(matches!(method, HttpMethod::Post { body: Some(Body::Json(_)) }));
    assert_eq!(
        endpoint.0,
        "https://merchant.revolut.com/api//apple-pay/domains/register"
    );
}
