//! Business payout links: the list query parameters with their repeated
//! state filter, the payload shapes and the request descriptions of the
//! endpoints.

use vstd::prelude::*;
use crate::client::{Body, Environment, HttpMethod, RevolutEndpoint};
use crate::query::{
    append_query_param, lemma_query_string_push, opt_as_str, spec_opt_decimal, spec_opt_str,
    spec_query_string,
};
use crate::text;

verus! {

/// The optional filters of the payout-link list: one `state` parameter per
/// listed state, then `created_before` and `limit`.
#[derive(Clone, Debug)]
pub struct PayoutLinkListParams {
    pub state: Option<Vec<PayoutLinkState>>,
    pub created_before: Option<String>,
    pub limit: Option<u64>,
}

impl Default for PayoutLinkListParams {
    /// No filters at all.
    fn default() -> (r: Self)
        ensures
            r.state is None,
            r.created_before is None,
            r.limit is None,
    {
        PayoutLinkListParams {
            state: Option::None,
            created_before: Option::None,
            limit: Option::None,
        }
    }
}

/// The lifecycle state of a payout link, named on the wire in snake case.
#[derive(Clone, Copy, Debug, PartialEq, Eq, Structural)]
pub enum PayoutLinkState {
    Created,
    Failed,
    Awaiting,
    Active,
    Expired,
    Cancelled,
    Processing,
    Processed,
}

impl PayoutLinkState {
    /// The wire name of the state.
    pub open spec fn spec_wire_name(&self) -> Seq<char> {
        match self {
            PayoutLinkState::Created => "created"@,
            PayoutLinkState::Failed => "failed"@,
            PayoutLinkState::Awaiting => "awaiting"@,
            PayoutLinkState::Active => "active"@,
            PayoutLinkState::Expired => "expired"@,
            PayoutLinkState::Cancelled => "cancelled"@,
            PayoutLinkState::Processing => "processing"@,
            PayoutLinkState::Processed => "processed"@,
        }
    }

    /// The wire name of the state.
    pub fn wire_name(&self) -> (r: &'static str)
        ensures
            r@ == self.spec_wire_name(),
    {
        match self {
            PayoutLinkState::Created => "created",
            PayoutLinkState::Failed => "failed",
            PayoutLinkState::Awaiting => "awaiting",
            PayoutLinkState::Active => "active",
            PayoutLinkState::Expired => "expired",
            PayoutLinkState::Cancelled => "cancelled",
            PayoutLinkState::Processing => "processing",
            PayoutLinkState::Processed => "processed",
        }
    }
}

/// How a payout link pays out, named on the wire in snake case.
#[derive(Clone, Copy, Debug, PartialEq, Eq, Structural)]
pub enum PayoutMethod {
    Revolut,
    BankAccount,
    Card,
}

impl PayoutMethod {
    /// The wire name of the method.
    pub open spec fn spec_wire_name(&self) -> Seq<char> {
        match self {
            PayoutMethod::Revolut => "revolut"@,
            PayoutMethod::BankAccount => "bank_account"@,
            PayoutMethod::Card => "card"@,
        }
    }

    /// The wire name of the method.
    pub fn wire_name(&self) -> (r: &'static str)
        ensures
            r@ == self.spec_wire_name(),
    {
        match self {
            PayoutMethod::Revolut => "revolut",
            PayoutMethod::BankAccount => "bank_account",
            PayoutMethod::Card => "card",
        }
    }
}

/// Why a payout link was cancelled.
#[derive(Clone, Copy, Debug, PartialEq, Eq, Structural)]
pub enum CancellationReason {
    TooManyNameCheckAttempts,
}

impl PayoutLinkListParams {
    /// One `state` parameter per listed state, in order.
    pub open spec fn spec_state_params(states: Seq<PayoutLinkState>) -> Seq<
        (Seq<char>, Option<Seq<char>>),
    > {
        states.map_values(|s: PayoutLinkState| ("state"@, Option::Some(s.spec_wire_name())))
    }

    /// The parameters in declaration order: every listed `state`, then
    /// `created_before` and `limit`.
    pub open spec fn spec_params(&self) -> Seq<(Seq<char>, Option<Seq<char>>)> {
        Self::spec_state_params(
            match self.state {
                Option::Some(v) => v@,
                Option::None => Seq::<PayoutLinkState>::empty(),
            },
        ) + seq![
            ("created_before"@, spec_opt_str(self.created_before)),
            ("limit"@, spec_opt_decimal(self.limit)),
        ]
    }

    /// The query fragment of the filters.
    pub open spec fn spec_query(&self) -> Seq<char> {
        spec_query_string(self.spec_params())
    }

    /// Renders the filters as a query fragment: each present filter
    /// percent-encoded, joined with `&`, the first prefixed with `?`;
    /// absent filters contribute nothing.
    pub fn query_string(&self) -> (r: String)
        ensures
            r@ == self.spec_query(),
    {
        let mut query = String::new();
        let ghost mut done: Seq<(Seq<char>, Option<Seq<char>>)> = Seq::empty();
        match &self.state {
            Option::Some(states) => {
                let mut i: usize = 0;
                while i < states.len()
                    invariant
                        i <= states@.len(),
                        done == PayoutLinkListParams::spec_state_params(states@.take(i as int)),
                        query@ == spec_query_string(done),
                    decreases states@.len() - i,
                {
                    let s = states[i];
                    proof {
                        lemma_query_string_push(
                            done,
                            "state"@,
                            Option::Some(states@[i as int].spec_wire_name()),
                        );
                    }
                    append_query_param(&mut query, "state", Option::Some(s.wire_name()));
                    proof {
                        done = done.push(("state"@, Option::Some(states@[i as int].spec_wire_name())));
                        assert(done =~= PayoutLinkListParams::spec_state_params(
                            states@.take(i as int + 1),
                        ));
                    }
                    i = i + 1;
                }
                proof {
                    assert(states@.take(i as int) =~= states@);
                }
            },
            Option::None => {},
        }
        proof {
            lemma_query_string_push(done, "created_before"@, spec_opt_str(self.created_before));
        }
        append_query_param(&mut query, "created_before", opt_as_str(&self.created_before));
        proof {
            done = done.push(("created_before"@, spec_opt_str(self.created_before)));
        }
        assert(query@ == spec_query_string(done));
        let limit_rendered = match self.limit {
            Option::Some(l) => Option::Some(text::decimal_string(l)),
            Option::None => Option::None,
        };
        proof {
            lemma_query_string_push(done, "limit"@, spec_opt_decimal(self.limit));
        }
        append_query_param(&mut query, "limit", opt_as_str(&limit_rendered));
        proof {
            done = done.push(("limit"@, spec_opt_decimal(self.limit)));
        }
        assert(query@ == spec_query_string(done));
        assert(done =~= self.spec_params());
        query
    }
}

/// The payout-link list request with its filters.
pub fn list<E: Environment>(env: &E, list_params: &PayoutLinkListParams) -> (r: (
    HttpMethod,
    RevolutEndpoint,
))
    ensures
        r.0 is Get,
        r.1.0@ == env.spec_uri("1.0"@, "/payout-links"@ + list_params.spec_query()),
{
    let query = list_params.query_string();
    let path = text::concat2("/payout-links", query.as_str());
    (HttpMethod::Get, env.uri("1.0", path.as_str()))
}

/// The single payout-link request.
pub fn retrieve<E: Environment>(env: &E, payout_link_id: &str) -> (r: (HttpMethod, RevolutEndpoint))
    ensures
        r.0 is Get,
        r.1.0@ == env.spec_uri("1.0"@, "/payout-links/"@ + payout_link_id@),
{
    let path = text::concat2("/payout-links/", payout_link_id);
    (HttpMethod::Get, env.uri("1.0", path.as_str()))
}

/// The payout-link creation request with its already JSON-encoded payload.
pub fn create<E: Environment>(env: &E, payout_link: Vec<u8>) -> (r: (HttpMethod, RevolutEndpoint))
    ensures
        r.0 matches HttpMethod::Post { body: b } && (b matches Option::Some(inner) && (
        inner matches Body::Json(j) && j@ == payout_link@)),
        r.1.0@ == env.spec_uri("1.0"@, "/payout-links"@),
{
    (HttpMethod::Post { body: Option::Some(Body::Json(payout_link)) }, env.uri("1.0", "/payout-links"))
}

/// The payout-link cancellation request: a bodyless `Post`.
pub fn cancel<E: Environment>(env: &E, payout_link_id: &str) -> (r: (HttpMethod, RevolutEndpoint))
    ensures
        r.0 matches HttpMethod::Post { body: b } && b is None,
        r.1.0@ == env.spec_uri("1.0"@, "/payout-links/"@ + payout_link_id@ + "/cancel"@),
{
    let path = text::concat3("/payout-links/", payout_link_id, "/cancel");
    (HttpMethod::Post { body: Option::None }, env.uri("1.0", path.as_str()))
}

} // verus!
