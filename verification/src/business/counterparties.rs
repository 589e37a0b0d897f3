//! Business counterparties: the list query parameters, the payload shapes
//! and the request descriptions of the endpoints, which exist only in the
//! production environment.

use vstd::prelude::*;
use crate::client::{Body, Environment, HttpMethod, ProductionEnvironment, RevolutEndpoint};
use crate::query::{
    append_query_param, lemma_query_string_push, opt_as_str, spec_opt_str, spec_query_string,
};
use crate::text;

verus! {

/// The optional filters of the counterparty list, rendered as query
/// parameters in declaration order.
#[derive(Clone, Debug)]
pub struct CounterpartyListParams {
    pub name: Option<String>,
    pub account_no: Option<String>,
    pub sort_code: Option<String>,
    pub iban: Option<String>,
    pub bic: Option<String>,
    pub created_before: Option<String>,
    pub limit: Option<u16>,
}

impl Default for CounterpartyListParams {
    /// No filters at all.
    fn default() -> (r: Self)
        ensures
            r.name is None,
            r.account_no is None,
            r.sort_code is None,
            r.iban is None,
            r.bic is None,
            r.created_before is None,
            r.limit is None,
    {
        CounterpartyListParams {
            name: Option::None,
            account_no: Option::None,
            sort_code: Option::None,
            iban: Option::None,
            bic: Option::None,
            created_before: Option::None,
            limit: Option::None,
        }
    }
}

/// A counterparty creation payload.
#[derive(Clone, Debug, PartialEq, Eq)]
pub struct CounterpartyRequest {
    pub company_name: Option<String>,
    pub profile_type: Option<CounterpartyProfileType>,
    pub name: Option<String>,
    pub individual_name: Option<IndividualName>,
    pub bank_country: Option<String>,
    pub currency: Option<String>,
    pub revtag: Option<String>,
    pub account_no: Option<String>,
    pub iban: Option<String>,
    pub sort_code: Option<String>,
    pub routing_number: Option<String>,
    pub bic: Option<String>,
    pub clabe: Option<String>,
    pub ifsc: Option<String>,
    pub bsb_code: Option<String>,
    pub address: Option<CounterpartyAddress>,
}

/// Whether a counterparty is a person or a business.
#[derive(Clone, Copy, Debug, PartialEq, Eq, Structural)]
pub enum CounterpartyProfileType {
    Personal,
    Business,
}

/// A person's name, split as the backend records it.
#[derive(Clone, Debug, PartialEq, Eq)]
pub struct IndividualName {
    pub first_name: Option<String>,
    pub last_name: Option<String>,
}

/// A counterparty's postal address.
#[derive(Clone, Debug, PartialEq, Eq)]
pub struct CounterpartyAddress {
    pub street_line1: Option<String>,
    pub street_line2: Option<String>,
    pub region: Option<String>,
    pub city: Option<String>,
    pub country: String,
    pub postcode: String,
}

/// A counterparty as the backend reports it.
#[derive(Clone, Debug, PartialEq, Eq)]
pub struct Counterparty {
    pub id: String,
    pub name: String,
    pub revtag: Option<String>,
    pub profile_type: Option<String>,
    pub country: Option<String>,
    pub state: CounterpartyState,
    pub created_at: String,
    pub updated_at: String,
    pub accounts: Vec<CounterpartyAccount>,
    pub cards: Vec<CounterpartyCard>,
}

/// The lifecycle state of a counterparty.
#[derive(Clone, Copy, Debug, PartialEq, Eq, Structural)]
pub enum CounterpartyState {
    Created,
    Draft,
    Deleted,
}

/// One account of a counterparty.
#[derive(Clone, Debug, PartialEq, Eq)]
pub struct CounterpartyAccount {
    pub id: String,
    pub name: Option<String>,
    pub bank_country: Option<String>,
    pub currency: String,
    pub type_: CounterpartyAccountType,
    pub account_no: Option<String>,
    pub iban: Option<String>,
    pub sort_code: Option<String>,
    pub routing_number: Option<String>,
    pub bic: Option<String>,
    pub clabe: Option<String>,
    pub ifsc: Option<String>,
    pub bsb_code: Option<String>,
    pub recipient_charges: Option<CounterpartyAccountRecipientCharges>,
}

/// Whether the recipient is expected to be charged.
#[derive(Clone, Copy, Debug, PartialEq, Eq, Structural)]
pub enum CounterpartyAccountRecipientCharges {
    No,
    Expected,
}

/// One card of a counterparty.
#[derive(Clone, Debug, PartialEq, Eq)]
pub struct CounterpartyCard {
    pub id: String,
    pub name: String,
    pub last_digits: String,
    pub scheme: CounterpartyCardScheme,
    pub country: String,
    pub currency: String,
}

/// The card scheme of a counterparty card.
#[derive(Clone, Copy, Debug, PartialEq, Eq, Structural)]
pub enum CounterpartyCardScheme {
    Visa,
    Mastercard,
}

/// Where a counterparty account lives.
#[derive(Clone, Copy, Debug, PartialEq, Eq, Structural)]
pub enum CounterpartyAccountType {
    Revolut,
    External,
}

/// An account-name validation payload.
#[derive(Clone, Debug, PartialEq, Eq)]
pub struct AccountNameRequest {
    pub account_no: String,
    pub sort_code: String,
    pub company_name: Option<String>,
    pub individual_name: Option<IndividualName>,
}

/// The outcome of an account-name validation.
#[derive(Clone, Debug, PartialEq, Eq)]
pub struct AccountName {
    pub result_code: String,
    pub reason: Option<AccountNameReason>,
    pub company_name: Option<String>,
    pub individual_name: Option<IndividualName>,
}

/// Why an account-name validation did not fully match.
#[derive(Clone, Debug, PartialEq, Eq)]
pub struct AccountNameReason {
    pub type_: Option<AccountNameReasonType>,
    pub code: Option<String>,
}

/// The kind of an account-name validation outcome.
#[derive(Clone, Copy, Debug, PartialEq, Eq, Structural)]
pub enum AccountNameReasonType {
    CloseMatch,
    IndividualAccountNameMatched,
    CompanyAccountNameMatched,
    IndividualAccountCloseMatch,
    CompanyAccountCloseMatch,
    NotMatched,
    AccountDoesNotExist,
    AccountSwitched,
    CannotBeChecked,
}

impl CounterpartyListParams {
    /// The parameters in declaration order.
    pub open spec fn spec_params(&self) -> Seq<(Seq<char>, Option<Seq<char>>)> {
        seq![
            ("name"@, spec_opt_str(self.name)),
            ("account_no"@, spec_opt_str(self.account_no)),
            ("sort_code"@, spec_opt_str(self.sort_code)),
            ("iban"@, spec_opt_str(self.iban)),
            ("bic"@, spec_opt_str(self.bic)),
            ("created_before"@, spec_opt_str(self.created_before)),
            (
                "limit"@,
                match self.limit {
                    Option::Some(l) => Option::Some(text::spec_decimal(l as int)),
                    Option::None => Option::None,
                },
            ),
        ]
    }

    /// The query fragment of the filters.
    pub open spec fn spec_query(&self) -> Seq<char> {
        spec_query_string(self.spec_params())
    }

    /// Renders the filters as a query fragment: each present filter
    /// percent-encoded, joined with `&`, the first prefixed with `?`;
    /// absent filters contribute nothing.
    pub fn query_string(&self) -> (r: String)
        ensures
            r@ == self.spec_query(),
    {
        let mut query = String::new();
        let ghost mut done: Seq<(Seq<char>, Option<Seq<char>>)> = Seq::empty();
        proof {
            lemma_query_string_push(done, "name"@, spec_opt_str(self.name));
        }
        append_query_param(&mut query, "name", opt_as_str(&self.name));
        proof {
            done = done.push(("name"@, spec_opt_str(self.name)));
        }
        assert(query@ == spec_query_string(done));
        proof {
            lemma_query_string_push(done, "account_no"@, spec_opt_str(self.account_no));
        }
        append_query_param(&mut query, "account_no", opt_as_str(&self.account_no));
        proof {
            done = done.push(("account_no"@, spec_opt_str(self.account_no)));
        }
        assert(query@ == spec_query_string(done));
        proof {
            lemma_query_string_push(done, "sort_code"@, spec_opt_str(self.sort_code));
        }
        append_query_param(&mut query, "sort_code", opt_as_str(&self.sort_code));
        proof {
            done = done.push(("sort_code"@, spec_opt_str(self.sort_code)));
        }
        assert(query@ == spec_query_string(done));
        proof {
            lemma_query_string_push(done, "iban"@, spec_opt_str(self.iban));
        }
        append_query_param(&mut query, "iban", opt_as_str(&self.iban));
        proof {
            done = done.push(("iban"@, spec_opt_str(self.iban)));
        }
        assert(query@ == spec_query_string(done));
        proof {
            lemma_query_string_push(done, "bic"@, spec_opt_str(self.bic));
        }
        append_query_param(&mut query, "bic", opt_as_str(&self.bic));
        proof {
            done = done.push(("bic"@, spec_opt_str(self.bic)));
        }
        assert(query@ == spec_query_string(done));
        proof {
            lemma_query_string_push(done, "created_before"@, spec_opt_str(self.created_before));
        }
        append_query_param(&mut query, "created_before", opt_as_str(&self.created_before));
        proof {
            done = done.push(("created_before"@, spec_opt_str(self.created_before)));
        }
        assert(query@ == spec_query_string(done));
        let limit_rendered = match self.limit {
            Option::Some(l) => Option::Some(text::decimal_string(l as u64)),
            Option::None => Option::None,
        };
        let ghost limit_view = match self.limit {
            Option::Some(l) => Option::Some(text::spec_decimal(l as int)),
            Option::None => Option::<Seq<char>>::None,
        };
        proof {
            lemma_query_string_push(done, "limit"@, limit_view);
        }
        append_query_param(&mut query, "limit", opt_as_str(&limit_rendered));
        proof {
            done = done.push(("limit"@, limit_view));
        }
        assert(query@ == spec_query_string(done));
        assert(done =~= self.spec_params());
        query
    }
}

/// The counterparty-list request with its filters; counterparties exist
/// only in production.
pub fn list(
    env: &ProductionEnvironment<crate::BusinessClient>,
    list_params: &CounterpartyListParams,
) -> (r: (HttpMethod, RevolutEndpoint))
    ensures
        r.0 is Get,
        r.1.0@ == env.spec_uri("1.0"@, "/counterparties"@ + list_params.spec_query()),
{
    let query = list_params.query_string();
    let path = text::concat2("/counterparties", query.as_str());
    (HttpMethod::Get, env.uri("1.0", path.as_str()))
}

/// The single-counterparty request.
pub fn retrieve(
    env: &ProductionEnvironment<crate::BusinessClient>,
    counterparty_id: &str,
) -> (r: (HttpMethod, RevolutEndpoint))
    ensures
        r.0 is Get,
        r.1.0@ == env.spec_uri("1.0"@, "/counterparty/"@ + counterparty_id@),
{
    let path = text::concat2("/counterparty/", counterparty_id);
    (HttpMethod::Get, env.uri("1.0", path.as_str()))
}

/// The counterparty deletion request.
pub fn delete(
    env: &ProductionEnvironment<crate::BusinessClient>,
    counterparty_id: &str,
) -> (r: (HttpMethod, RevolutEndpoint))
    ensures
        r.0 is Delete,
        r.1.0@ == env.spec_uri("1.0"@, "/counterparty/"@ + counterparty_id@),
{
    let path = text::concat2("/counterparty/", counterparty_id);
    (HttpMethod::Delete, env.uri("1.0", path.as_str()))
}

/// The counterparty creation request with its already JSON-encoded
/// payload.
pub fn create(env: &ProductionEnvironment<crate::BusinessClient>, counterparty: Vec<u8>) -> (r: (
    HttpMethod,
    RevolutEndpoint,
))
    ensures
        r.0 matches HttpMethod::Post { body: b } && (b matches Option::Some(inner) && (
        inner matches Body::Json(j) && j@ == counterparty@)),
        r.1.0@ == env.spec_uri("1.0"@, "/counterparty"@),
{
    (
        HttpMethod::Post { body: Option::Some(Body::Json(counterparty)) },
        env.uri("1.0", "/counterparty"),
    )
}

/// The account-name validation request with its already JSON-encoded
/// payload.
pub fn validate_account_name(
    env: &ProductionEnvironment<crate::BusinessClient>,
    account_name: Vec<u8>,
) -> (r: (HttpMethod, RevolutEndpoint))
    ensures
        r.0 matches HttpMethod::Post { body: b } && (b matches Option::Some(inner) && (
        inner matches Body::Json(j) && j@ == account_name@)),
        r.1.0@ == env.spec_uri("1.0"@, "/account-name-validation"@),
{
    (
        HttpMethod::Post { body: Option::Some(Body::Json(account_name)) },
        env.uri("1.0", "/account-name-validation"),
    )
}

} // verus!
