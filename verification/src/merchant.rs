//! The Merchant product line: client construction with the static secret
//! key and the per-resource request descriptions and payload shapes.

pub mod apple_pay;
pub mod client;
pub mod customers;
pub mod disputes;
pub mod locations;
pub mod orders;
pub mod other;
pub mod payments;
pub mod payouts;
pub mod report_runs;
pub mod webhooks;
