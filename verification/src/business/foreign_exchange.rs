//! Business foreign exchange: the exchange payload shapes, their wire
//! names, and the request descriptions of the endpoints.

use vstd::prelude::*;
use crate::client::{Body, Environment, HttpMethod, RevolutEndpoint};
use crate::text;

verus! {

/// A settled or pending currency exchange, as the backend reports it.
#[derive(Clone, Debug, PartialEq, Eq)]
pub struct Exchange {
    pub id: Option<String>,
    pub type_: Option<String>,
    pub reason_code: Option<String>,
    pub created_at: Option<String>,
    pub completed_at: Option<String>,
    pub state: Option<ExchangeState>,
}

impl Default for Exchange {
    /// Every field absent.
    fn default() -> (r: Self)
        ensures
            r.id is None,
            r.type_ is None,
            r.reason_code is None,
            r.created_at is None,
            r.completed_at is None,
            r.state is None,
    {
        Exchange {
            id: Option::None,
            type_: Option::None,
            reason_code: Option::None,
            created_at: Option::None,
            completed_at: Option::None,
            state: Option::None,
        }
    }
}

/// The lifecycle state of an exchange, named on the wire in snake case,
/// with the upper-case spellings accepted as aliases when read.
#[derive(Clone, Copy, Debug, PartialEq, Eq, Structural)]
pub enum ExchangeState {
    Created,
    Pending,
    Completed,
    Declined,
    Failed,
    Reverted,
}

impl ExchangeState {
    /// The wire name of the state.
    pub open spec fn spec_wire_name(&self) -> Seq<char> {
        match self {
            ExchangeState::Created => "created"@,
            ExchangeState::Pending => "pending"@,
            ExchangeState::Completed => "completed"@,
            ExchangeState::Declined => "declined"@,
            ExchangeState::Failed => "failed"@,
            ExchangeState::Reverted => "reverted"@,
        }
    }

    /// The wire name of the state.
    pub fn wire_name(&self) -> (r: &'static str)
        ensures
            r@ == self.spec_wire_name(),
    {
        match self {
            ExchangeState::Created => "created",
            ExchangeState::Pending => "pending",
            ExchangeState::Completed => "completed",
            ExchangeState::Declined => "declined",
            ExchangeState::Failed => "failed",
            ExchangeState::Reverted => "reverted",
        }
    }

    /// The state a wire name denotes: the snake-case name or its
    /// upper-case alias; anything else denotes no state.
    pub open spec fn spec_from_wire(s: Seq<char>) -> Option<ExchangeState> {
        if s == "created"@ || s == "CREATED"@ {
            Option::Some(ExchangeState::Created)
        } else if s == "pending"@ || s == "PENDING"@ {
            Option::Some(ExchangeState::Pending)
        } else if s == "completed"@ || s == "COMPLETED"@ {
            Option::Some(ExchangeState::Completed)
        } else if s == "declined"@ || s == "DECLINED"@ {
            Option::Some(ExchangeState::Declined)
        } else if s == "failed"@ || s == "FAILED"@ {
            Option::Some(ExchangeState::Failed)
        } else if s == "reverted"@ || s == "REVERTED"@ {
            Option::Some(ExchangeState::Reverted)
        } else {
            Option::None
        }
    }

    /// Reads a wire name back into a state.
    pub fn from_wire(s: &str) -> (r: Option<ExchangeState>)
        ensures
            r == Self::spec_from_wire(s@),
    {
        if text::str_eq(s, "created") || text::str_eq(s, "CREATED") {
            Option::Some(ExchangeState::Created)
        } else if text::str_eq(s, "pending") || text::str_eq(s, "PENDING") {
            Option::Some(ExchangeState::Pending)
        } else if text::str_eq(s, "completed") || text::str_eq(s, "COMPLETED") {
            Option::Some(ExchangeState::Completed)
        } else if text::str_eq(s, "declined") || text::str_eq(s, "DECLINED") {
            Option::Some(ExchangeState::Declined)
        } else if text::str_eq(s, "failed") || text::str_eq(s, "FAILED") {
            Option::Some(ExchangeState::Failed)
        } else if text::str_eq(s, "reverted") || text::str_eq(s, "REVERTED") {
            Option::Some(ExchangeState::Reverted)
        } else {
            Option::None
        }
    }
}

/// Writing a state to the wire and reading the written name back yields
/// the original state.
pub proof fn lemma_exchange_state_round_trip(s: ExchangeState)
    ensures
        ExchangeState::spec_from_wire(s.spec_wire_name()) == Option::Some(s),
{
    reveal_strlit("created");
    reveal_strlit("CREATED");
    reveal_strlit("pending");
    reveal_strlit("PENDING");
    reveal_strlit("completed");
    reveal_strlit("COMPLETED");
    reveal_strlit("declined");
    reveal_strlit("DECLINED");
    reveal_strlit("failed");
    reveal_strlit("FAILED");
    reveal_strlit("reverted");
    reveal_strlit("REVERTED");
    assert("created"@.len() == 7 && "created"@[0] == 'c');
    assert("CREATED"@.len() == 7 && "CREATED"@[0] == 'C');
    assert("pending"@.len() == 7 && "pending"@[0] == 'p');
    assert("PENDING"@.len() == 7 && "PENDING"@[0] == 'P');
    assert("completed"@.len() == 9 && "completed"@[0] == 'c');
    assert("COMPLETED"@.len() == 9 && "COMPLETED"@[0] == 'C');
    assert("declined"@.len() == 8 && "declined"@[0] == 'd');
    assert("DECLINED"@.len() == 8 && "DECLINED"@[0] == 'D');
    assert("failed"@.len() == 6 && "failed"@[0] == 'f');
    assert("FAILED"@.len() == 6 && "FAILED"@[0] == 'F');
    assert("reverted"@.len() == 8 && "reverted"@[0] == 'r');
    assert("REVERTED"@.len() == 8 && "REVERTED"@[0] == 'R');
}

/// The exchange-rate request: `from` and `to` are currency codes and
/// `amount`, where given, is already rendered as its decimal text (the
/// query is assembled verbatim, without percent-encoding, as the backend
/// expects currency codes and plain numbers here).
pub fn get<E: Environment>(env: &E, from: &str, to: &str, amount: Option<&str>) -> (r: (
    HttpMethod,
    RevolutEndpoint,
))
    ensures
        r.0 is Get,
        match amount {
            Option::Some(a) => r.1.0@ == env.spec_uri(
                "1.0"@,
                "/rate"@ + "?from="@ + from@ + "&to="@ + to@ + "&amount="@ + a@,
            ),
            Option::None => r.1.0@ == env.spec_uri(
                "1.0"@,
                "/rate"@ + "?from="@ + from@ + "&to="@ + to@,
            ),
        },
{
    let base = text::concat4("/rate", "?from=", from, "&to=");
    let base = text::concat2(base.as_str(), to);
    let path = match amount {
        Option::Some(a) => text::concat3(base.as_str(), "&amount=", a),
        Option::None => base,
    };
    (HttpMethod::Get, env.uri("1.0", path.as_str()))
}

/// The exchange request with its already JSON-encoded payload.
pub fn exchange<E: Environment>(env: &E, exchange_request: Vec<u8>) -> (r: (HttpMethod, RevolutEndpoint))
    ensures
        r.0 matches HttpMethod::Post { body: b } && (b matches Option::Some(inner) && (
        inner matches Body::Json(j) && j@ == exchange_request@)),
        r.1.0@ == env.spec_uri("1.0"@, "/exchange"@),
{
    (
        HttpMethod::Post { body: Option::Some(Body::Json(exchange_request)) },
        env.uri("1.0", "/exchange"),
    )
}

} // verus!
