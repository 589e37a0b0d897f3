//! Business expenses: the payload shapes and the request descriptions of
//! the endpoints, which exist only in the production environment.

use vstd::prelude::*;
use crate::client::{Environment, HttpMethod, ProductionEnvironment, RevolutEndpoint};
use crate::text;

verus! {

/// The category an expense split is booked under.
#[derive(Clone, Debug, PartialEq, Eq)]
pub struct Category {
    pub name: String,
    pub code: Option<String>,
}

/// The expense-list request; expenses exist only in production.
pub fn list(env: &ProductionEnvironment<crate::BusinessClient>) -> (r: (
    HttpMethod,
    RevolutEndpoint,
))
    ensures
        r.0 is Get,
        r.1.0@ == env.spec_uri("1.0"@, "/expenses"@),
{
    (HttpMethod::Get, env.uri("1.0", "/expenses"))
}

/// The single-expense request.
pub fn expense(env: &ProductionEnvironment<crate::BusinessClient>, expense_id: &str) -> (r: (
    HttpMethod,
    RevolutEndpoint,
))
    ensures
        r.0 is Get,
        r.1.0@ == env.spec_uri("1.0"@, "/expenses/"@ + expense_id@),
{
    let path = text::concat2("/expenses/", expense_id);
    (HttpMethod::Get, env.uri("1.0", path.as_str()))
}

/// The receipt-content request of one expense receipt; the answer is the
/// raw receipt bytes.
pub fn expense_receipt(
    env: &ProductionEnvironment<crate::BusinessClient>,
    expense_id: &str,
    receipt_id: &str,
) -> (r: (HttpMethod, RevolutEndpoint))
    ensures
        r.0 is Get,
        r.1.0@ == env.spec_uri(
            "1.0"@,
            "/expenses/"@ + expense_id@ + "/receipts/"@ + receipt_id@ + "/content"@,
        ),
{
    let path = text::concat4("/expenses/", expense_id, "/receipts/", receipt_id);
    let path = text::concat2(path.as_str(), "/content");
    (HttpMethod::Get, env.uri("1.0", path.as_str()))
}

} // verus!
