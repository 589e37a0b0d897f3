//! Business simulations: sandbox-only helpers that force transfer state
//! changes and account top-ups. The request descriptions enforce the
//! sandbox-only capability by their type.

use vstd::prelude::*;
use crate::client::{Body, Environment, HttpMethod, RevolutEndpoint, SandboxEnvironment};
use crate::text;

verus! {

/// The state a simulated transfer is forced into, named on the wire in
/// snake case.
#[derive(Clone, Copy, Debug, PartialEq, Eq, Structural)]
pub enum TransferStateRequest {
    Complete,
    Revert,
    Decline,
    Fail,
}

impl TransferStateRequest {
    /// The wire name of the forced state.
    pub open spec fn spec_wire_name(&self) -> Seq<char> {
        match self {
            TransferStateRequest::Complete => "complete"@,
            TransferStateRequest::Revert => "revert"@,
            TransferStateRequest::Decline => "decline"@,
            TransferStateRequest::Fail => "fail"@,
        }
    }

    /// The wire name of the forced state.
    pub fn wire_name(&self) -> (r: &'static str)
        ensures
            r@ == self.spec_wire_name(),
    {
        match self {
            TransferStateRequest::Complete => "complete",
            TransferStateRequest::Revert => "revert",
            TransferStateRequest::Decline => "decline",
            TransferStateRequest::Fail => "fail",
        }
    }
}

/// The backend's report of a simulated transfer state change.
#[derive(Clone, Debug, PartialEq, Eq)]
pub struct TransferStateUpdate {
    pub id: String,
    pub state: TransferState,
    pub created_at: String,
    pub completed_at: Option<String>,
}

/// The state a simulated transfer ended in.
#[derive(Clone, Copy, Debug, PartialEq, Eq, Structural)]
pub enum TransferState {
    Completed,
    Reverted,
    Declined,
    Failed,
}

/// The backend's report of a simulated top-up.
#[derive(Clone, Debug, PartialEq, Eq)]
pub struct TopUp {
    pub id: String,
    pub state: TopUpState,
    pub created_at: String,
    pub completed_at: Option<String>,
}

/// The state a simulated top-up ended in.
#[derive(Clone, Copy, Debug, PartialEq, Eq, Structural)]
pub enum TopUpState {
    Pending,
    Completed,
    Reverted,
    Failed,
}

/// The request that forces a sandbox transaction into a state: a bodyless
/// `Post` whose path carries the transaction and the forced state.
pub fn transfer_state_update(
    env: &SandboxEnvironment<crate::BusinessClient>,
    id: &str,
    state: TransferStateRequest,
) -> (r: (HttpMethod, RevolutEndpoint))
    ensures
        r.0 matches HttpMethod::Post { body: b } && b is None,
        r.1.0@ == env.spec_uri(
            "1.0"@,
            "/sandbox/transactions/"@ + id@ + "/"@ + state.spec_wire_name(),
        ),
{
    let path = text::concat4("/sandbox/transactions/", id, "/", state.wire_name());
    (HttpMethod::Post { body: Option::None }, env.uri("1.0", path.as_str()))
}

/// The sandbox top-up request with its already JSON-encoded payload.
pub fn account_top_up(env: &SandboxEnvironment<crate::BusinessClient>, top_up: Vec<u8>) -> (r: (
    HttpMethod,
    RevolutEndpoint,
))
    ensures
        r.0 matches HttpMethod::Post { body: b } && (b matches Option::Some(inner) && (
        inner matches Body::Json(j) && j@ == top_up@)),
        r.1.0@ == env.spec_uri("1.0"@, "/sandbox/topup"@),
{
    (HttpMethod::Post { body: Option::Some(Body::Json(top_up)) }, env.uri("1.0", "/sandbox/topup"))
}

} // verus!
