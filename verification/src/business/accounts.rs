//! Business accounts: the payload shapes and the request descriptions of
//! the endpoints.

use vstd::prelude::*;
use crate::client::{Environment, HttpMethod, RevolutEndpoint};
use crate::errors::{ClientError, Error};
use vstd::string::StringExecFns;
use crate::text;

verus! {

/// Whether an account is usable.
#[derive(Clone, Copy, Debug, PartialEq, Eq, Structural)]
pub enum AccountState {
    Active,
    Inactive,
}

/// The estimated settlement time advertised with bank details.
#[derive(Clone, Debug, PartialEq, Eq)]
pub struct AccountEstimatedTime {
    pub unit: String,
    pub min: Option<u16>,
    pub max: Option<u16>,
}

/// A postal address attached to bank details.
#[derive(Clone, Debug, PartialEq, Eq)]
pub struct AccountAddress {
    pub street_line1: Option<String>,
    pub street_line2: Option<String>,
    pub region: Option<String>,
    pub city: Option<String>,
    pub country: String,
    pub postcode: String,
}

/// The bank details of one account.
#[derive(Clone, Debug, PartialEq, Eq)]
pub struct BankDetails {
    pub iban: Option<String>,
    pub bic: Option<String>,
    pub account_no: Option<String>,
    pub sort_code: Option<String>,
    pub routing_number: Option<String>,
    pub beneficiary: String,
    pub beneficiary_address: AccountAddress,
    pub bank_country: Option<String>,
    pub pooled: Option<bool>,
    pub unique_reference: Option<String>,
    pub schemes: Vec<String>,
    pub estimated_time: AccountEstimatedTime,
}

/// The account-list request.
pub fn list<E: Environment>(env: &E) -> (r: (HttpMethod, RevolutEndpoint))
    ensures
        r.0 is Get,
        r.1.0@ == env.spec_uri("1.0"@, "/accounts"@),
{
    (HttpMethod::Get, env.uri("1.0", "/accounts"))
}

/// The single-account request.
pub fn account<E: Environment>(env: &E, account_id: &str) -> (r: (HttpMethod, RevolutEndpoint))
    ensures
        r.0 is Get,
        r.1.0@ == env.spec_uri("1.0"@, "/accounts/"@ + account_id@),
{
    let path = text::concat2("/accounts/", account_id);
    (HttpMethod::Get, env.uri("1.0", path.as_str()))
}

/// The bank-details request of one account; the decoded answer is a list,
/// reduced by [`first_bank_details`].
pub fn bank_details<E: Environment>(env: &E, account_id: &str) -> (r: (HttpMethod, RevolutEndpoint))
    ensures
        r.0 is Get,
        r.1.0@ == env.spec_uri("1.0"@, "/accounts/"@ + account_id@ + "/bank-details"@),
{
    let path = text::concat3("/accounts/", account_id, "/bank-details");
    (HttpMethod::Get, env.uri("1.0", path.as_str()))
}

/// The account's details are the first entry of the decoded list; an empty
/// list means no such account is present.
pub fn first_bank_details(details: Vec<BankDetails>) -> (r: Result<BankDetails, Error>)
    ensures
        match r {
            Result::Ok(d) => details@.len() > 0 && d == details@[0],
            Result::Err(e) => details@.len() == 0 && (e matches Error::ClientError(
                ClientError::RequestError(m),
            ) && m@ == "No such account present"@),
        },
{
    let mut details = details;
    if details.len() == 0 {
        Result::Err(
            Error::ClientError(
                ClientError::RequestError(String::from_str("No such account present")),
            ),
        )
    } else {
        Result::Ok(details.remove(0))
    }
}

} // verus!
