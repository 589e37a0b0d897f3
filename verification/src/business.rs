//! The Business product line: client construction, the token lifecycle
//! and the per-resource request descriptions and payload shapes.

pub mod accounts;
pub mod cards;
pub mod client;
pub mod counterparties;
pub mod expenses;
pub mod foreign_exchange;
pub mod payment_drafts;
pub mod payout_links;
pub mod simulations;
pub mod team_members;
pub mod transactions;
pub mod transfers;
pub mod webhooks_v2;
