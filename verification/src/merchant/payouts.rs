//! Merchant payouts: the payload shapes and the request descriptions of
//! the endpoints.

use vstd::prelude::*;
use crate::client::{Environment, HttpMethod, RevolutEndpoint};
use crate::text;

verus! {

/// A payout as the backend reports it.
#[derive(Clone, Debug, PartialEq, Eq)]
pub struct Payout {
    pub id: String,
    pub state: PayoutState,
    pub created_at: String,
    pub destination_type: PayoutDestinationType,
    pub amount: Option<u64>,
    pub currency: Option<String>,
}

/// The lifecycle state of a payout.
#[derive(Clone, Copy, Debug, PartialEq, Eq, Structural)]
pub enum PayoutState {
    Processing,
    Completed,
    Failed,
}

/// Where a payout is delivered.
#[derive(Clone, Copy, Debug, PartialEq, Eq, Structural)]
pub enum PayoutDestinationType {
    CurrentPocket,
    ExternalBeneficiary,
}

/// The payout-list request.
pub fn list<E: Environment>(env: &E) -> (r: (HttpMethod, RevolutEndpoint))
    requires
        env.spec_supports_unversioned(),
    ensures
        r.0 is Get,
        r.1.0@ == env.spec_unversioned_uri("/payouts"@),
{
    (HttpMethod::Get, env.unversioned_uri("/payouts"))
}

/// The single-payout request.
pub fn retrieve<E: Environment>(env: &E, payout_id: &str) -> (r: (HttpMethod, RevolutEndpoint))
    requires
        env.spec_supports_unversioned(),
    ensures
        r.0 is Get,
        r.1.0@ == env.spec_unversioned_uri("/payouts/"@ + payout_id@),
{
    let path = text::concat2("/payouts/", payout_id);
    (HttpMethod::Get, env.unversioned_uri(path.as_str()))
}

} // verus!
