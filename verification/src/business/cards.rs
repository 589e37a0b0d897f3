//! Business cards: the payload shapes and the request description of the
//! list endpoint. The cards endpoints exist only in the production
//! environment, which the request description enforces by its type.

use vstd::prelude::*;
use crate::client::{Environment, HttpMethod, ProductionEnvironment, RevolutEndpoint};

verus! {

/// The product a card was issued under.
#[derive(Clone, Debug, PartialEq, Eq)]
pub struct CardProduct {
    pub code: String,
}

/// The spend program a card belongs to.
#[derive(Clone, Debug, PartialEq, Eq)]
pub struct CardSpendProgram {
    pub label: String,
}

/// The lifecycle state of a card.
#[derive(Clone, Copy, Debug, PartialEq, Eq, Structural)]
pub enum CardState {
    Created,
    Pending,
    Active,
    Frozen,
    Locked,
}

/// The sensitive details of a card, served only on explicit request.
#[derive(Clone, Debug, PartialEq, Eq)]
pub struct CardSensitiveDetails {
    pub pan: String,
    pub cvv: String,
    pub expiry: String,
}

/// The card-list request; cards exist only in production.
pub fn list(env: &ProductionEnvironment<crate::BusinessClient>) -> (r: (
    HttpMethod,
    RevolutEndpoint,
))
    ensures
        r.0 is Get,
        r.1.0@ == env.spec_uri("1.0"@, "/cards"@),
{
    (HttpMethod::Get, env.uri("1.0", "/cards"))
}

} // verus!
