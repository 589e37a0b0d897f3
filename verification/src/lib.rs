//! Typed client library for the Revolut REST APIs (Business, Merchant and
//! Open Banking product lines).
//!
//! The verified core consists of the credential and client builders (typestate
//! encoded, so that an incomplete configuration cannot be built), the token
//! lifecycle of the Business OAuth-style flow, the endpoint resolver, the
//! query-string encoder and the request dispatcher, which turns a logical
//! operation into a fully described transport request and classifies the
//! response. The actual HTTP transport and the JSON (de)serialisation of the
//! per-resource payloads are collaborators outside this crate.

use vstd::prelude::*;

pub mod business;
pub mod client;
pub mod errors;
pub mod merchant;
pub mod open_banking;
pub mod query;
pub mod text;

verus! {

/// Marker for the Business product line.
pub struct BusinessClient;

/// Marker for the Merchant product line.
pub struct MerchantClient;

/// Marker for the Open Banking product line.
pub struct OpenBankingClient;

/// Placeholder credential for the Open Banking product line, whose
/// authentication flows are not implemented.
pub struct OpenBankingAuthentication;

} // verus!
