//! The Open Banking product line: client construction only; its
//! authentication flows are placeholders.

pub mod client;
