//! Query-string rendering, endpoint resolution, decimal rendering and the
//! wire names of the exchange states, including the documented API sample.

use std::marker::PhantomData;

use revolut::business::counterparties::CounterpartyListParams;
use revolut::business::foreign_exchange::{self, Exchange, ExchangeState};
use revolut::business::payout_links::{self, PayoutLinkListParams, PayoutLinkState};
use revolut::business::transactions::{self, TransactionListParams, TransactionType};
use revolut::client::{Environment, HttpMethod, ProductionEnvironment, SandboxEnvironment};
use revolut::text::decimal_string;

#[test]
fn payout_links_check_list_query_parameters() {
    assert_eq!(
        "?state=created",
        PayoutLinkListParams {
            state: Some(vec![PayoutLinkState::Created]),
            ..Default::default()
        }
        .query_string()
    );
    assert_eq!(
        "?state=created&state=active",
        PayoutLinkListParams {
            state: Some(vec![PayoutLinkState::Created, PayoutLinkState::Active]),
            ..Default::default()
        }
        .query_string()
    );
}

#[test]
fn transactions_check_list_query_parameters() {
    assert_eq!(
        "?type=card_payment",
        TransactionListParams {
            type_: Some(TransactionType::CardPayment),
            ..Default::default()
        }
        .query_string()
    );
}

#[test]
fn absent_filters_render_an_empty_query() {
    assert_eq!("", TransactionListParams::default().query_string());
    assert_eq!("", PayoutLinkListParams::default().query_string());
}

#[test]
fn present_filters_are_percent_encoded_and_joined() {
    let params = TransactionListParams {
        from: Some("2024-01-01T00:00:00Z".to_string()),
        to: None,
        account: None,
        count: Some(25),
        type_: None,
    };
    assert_eq!("?from=2024-01-01T00%3A00%3A00Z&count=25", params.query_string());
}

#[test]
fn counterparty_filters_join_in_declaration_order() {
    let params = CounterpartyListParams {
        name: Some("John Smith".to_string()),
        limit: Some(10),
        ..Default::default()
    };
    assert_eq!("?name=John%20Smith&limit=10", params.query_string());
}

#[test]
fn decimal_rendering_matches_expectations() {
    assert_eq!("0", decimal_string(0));
    assert_eq!("7", decimal_string(7));
    assert_eq!("10", decimal_string(10));
    assert_eq!("1234567890", decimal_string(1234567890));
    assert_eq!("18446744073709551615", decimal_string(u64::MAX));
}

#[test]
fn business_urls_are_always_versioned() {
    let sandbox = SandboxEnvironment::<revolut::BusinessClient> { client_type: PhantomData };
    assert_eq!(
        sandbox.uri("1.0", "/accounts").0,
        "https://sandbox-b2b.revolut.com/api/1.0/accounts"
    );
    let production = ProductionEnvironment::<revolut::BusinessClient> { client_type: PhantomData };
    assert_eq!(
        production.uri("2.0", "/webhooks").0,
        "https://b2b.revolut.com/api/2.0/webhooks"
    );
}

#[test]
fn merchant_urls_follow_both_templates() {
    let sandbox = SandboxEnvironment::<revolut::MerchantClient> { client_type: PhantomData };
    assert_eq!(
        sandbox.uri("1.0", "/orders").0,
        "https://sandbox-merchant.revolut.com/api/1.0/orders"
    );
    assert_eq!(
        sandbox.unversioned_uri("/orders").0,
        "https://sandbox-merchant.revolut.com/api/orders"
    );
    let production = ProductionEnvironment::<revolut::MerchantClient> { client_type: PhantomData };
    assert_eq!(
        production.uri("1.0", "/orders").0,
        "https://merchant.revolut.com/api/1.0/orders"
    );
    assert_eq!(
        production.unversioned_uri("/orders").0,
        "https://merchant.revolut.com/api//orders"
    );
}

#[test]
fn payout_link_list_appends_its_query_to_the_path() {
    let sandbox = SandboxEnvironment::<revolut::BusinessClient> { client_type: PhantomData };
    let params = PayoutLinkListParams {
        state: Some(vec![PayoutLinkState::Processing]),
        ..Default::default()
    };
    let (method, endpoint) = payout_links::list(&sandbox, &params);
    assert!(matches!(method, HttpMethod::Get));
    assert_eq!(
        endpoint.0,
        "https://sandbox-b2b.revolut.com/api/1.0/payout-links?state=processing"
    );
}

#[test]
fn transaction_retrieval_by_request_id_adds_the_id_type() {
    let sandbox = SandboxEnvironment::<revolut::BusinessClient> { client_type: PhantomData };
    let (_, endpoint) = transactions::retrieve(
        &sandbox,
        transactions::RetrieveParam::Request { request_id: "req-9" },
    );
    assert_eq!(
        endpoint.0,
        "https://sandbox-b2b.revolut.com/api/1.0/transaction/req-9?id_type=request_id"
    );
}

#[test]
fn exchange_rate_query_is_assembled_verbatim() {
    let sandbox = SandboxEnvironment::<revolut::BusinessClient> { client_type: PhantomData };
    let (_, with_amount) = foreign_exchange::get(&sandbox, "EUR", "USD", Some("100.5"));
    assert_eq!(
        with_amount.0,
        "https://sandbox-b2b.revolut.com/api/1.0/rate?from=EUR&to=USD&amount=100.5"
    );
    let (_, without_amount) = foreign_exchange::get(&sandbox, "EUR", "USD", None);
    assert_eq!(
        without_amount.0,
        "https://sandbox-b2b.revolut.com/api/1.0/rate?from=EUR&to=USD"
    );
}

#[test]
fn exchange_state_wire_names_round_trip() {
    let states = [
        ExchangeState::Created,
        ExchangeState::Pending,
        ExchangeState::Completed,
        ExchangeState::Declined,
        ExchangeState::Failed,
        ExchangeState::Reverted,
    ];
    for state in states {
        assert_eq!(ExchangeState::from_wire(state.wire_name()), Some(state));
    }
    assert_eq!(ExchangeState::from_wire("COMPLETED"), Some(ExchangeState::Completed));
    assert_eq!(ExchangeState::from_wire("unknown"), None);
}

#[test]
fn check_documented_examples() {
    let sample = "{
        \"id\": \"630f9c2e-2e74-a06d-ab61-deb7ggkkd6cb\",
        \"state\": \"completed\",
        \"created_at\": \"2022-08-31T17:36:46.656876Z\",
        \"completed_at\": \"2022-08-31T17:36:46.657239Z\"
    }";
    let value: serde_json::Value = serde_json::from_str(sample).unwrap();
    let decoded = Exchange {
        id: value["id"].as_str().map(|s| s.to_string()),
        type_: value["type"].as_str().map(|s| s.to_string()),
        reason_code: value["reason_code"].as_str().map(|s| s.to_string()),
        created_at: value["created_at"].as_str().map(|s| s.to_string()),
        completed_at: value["completed_at"].as_str().map(|s| s.to_string()),
        state: value["state"].as_str().and_then(ExchangeState::from_wire),
    };
    assert_eq!(
        decoded,
        Exchange {
            id: Some("630f9c2e-2e74-a06d-ab61-deb7ggkkd6cb".to_string()),
            state: Some(ExchangeState::Completed),
            created_at: Some("2022-08-31T17:36:46.656876Z".to_string()),
            completed_at: Some("2022-08-31T17:36:46.657239Z".to_string()),
            ..Default::default()
        },
    );
}
