//! Business transactions: the list query parameters, the payload shapes
//! and the request descriptions of the endpoints.

use vstd::prelude::*;
use crate::client::{Environment, HttpMethod, RevolutEndpoint};
use crate::query::{
    append_query_param, lemma_query_string_push, opt_as_str, spec_opt_decimal, spec_opt_str,
    spec_query_string,
};
use crate::text;

verus! {

/// The optional filters of the transaction list, rendered as query
/// parameters in declaration order.
#[derive(Clone, Debug)]
pub struct TransactionListParams {
    pub from: Option<String>,
    pub to: Option<String>,
    pub account: Option<String>,
    pub count: Option<u64>,
    pub type_: Option<TransactionType>,
}

impl Default for TransactionListParams {
    /// No filters at all.
    fn default() -> (r: Self)
        ensures
            r.from is None,
            r.to is None,
            r.account is None,
            r.count is None,
            r.type_ is None,
    {
        TransactionListParams {
            from: Option::None,
            to: Option::None,
            account: Option::None,
            count: Option::None,
            type_: Option::None,
        }
    }
}

/// The kind of a transaction, named on the wire in snake case.
#[derive(Clone, Copy, Debug, PartialEq, Eq, Structural)]
pub enum TransactionType {
    Atm,
    CardPayment,
    CardRefund,
    CardChargeback,
    CardCredit,
    Exchange,
    Transfer,
    Loan,
    Fee,
    Refund,
    Topup,
    TopupReturn,
    Tax,
    TaxRefund,
}

impl TransactionType {
    /// The wire name of the kind.
    pub open spec fn spec_wire_name(&self) -> Seq<char> {
        match self {
            TransactionType::Atm => "atm"@,
            TransactionType::CardPayment => "card_payment"@,
            TransactionType::CardRefund => "card_refund"@,
            TransactionType::CardChargeback => "card_chargeback"@,
            TransactionType::CardCredit => "card_credit"@,
            TransactionType::Exchange => "exchange"@,
            TransactionType::Transfer => "transfer"@,
            TransactionType::Loan => "loan"@,
            TransactionType::Fee => "fee"@,
            TransactionType::Refund => "refund"@,
            TransactionType::Topup => "topup"@,
            TransactionType::TopupReturn => "topup_return"@,
            TransactionType::Tax => "tax"@,
            TransactionType::TaxRefund => "tax_refund"@,
        }
    }

    /// The wire name of the kind.
    pub fn wire_name(&self) -> (r: &'static str)
        ensures
            r@ == self.spec_wire_name(),
    {
        match self {
            TransactionType::Atm => "atm",
            TransactionType::CardPayment => "card_payment",
            TransactionType::CardRefund => "card_refund",
            TransactionType::CardChargeback => "card_chargeback",
            TransactionType::CardCredit => "card_credit",
            TransactionType::Exchange => "exchange",
            TransactionType::Transfer => "transfer",
            TransactionType::Loan => "loan",
            TransactionType::Fee => "fee",
            TransactionType::Refund => "refund",
            TransactionType::Topup => "topup",
            TransactionType::TopupReturn => "topup_return",
            TransactionType::Tax => "tax",
            TransactionType::TaxRefund => "tax_refund",
        }
    }
}

/// The lifecycle state of a transaction.
#[derive(Clone, Copy, Debug, PartialEq, Eq, Structural)]
pub enum TransactionState {
    Created,
    Pending,
    Completed,
    Declined,
    Failed,
    Reverted,
}

/// The merchant recorded on a card transaction.
#[derive(Clone, Debug, PartialEq, Eq)]
pub struct TransactionMerchant {
    pub name: Option<String>,
    pub city: Option<String>,
    pub category_code: Option<String>,
    pub country: Option<String>,
}

/// The counterparty of one transaction leg.
#[derive(Clone, Debug, PartialEq, Eq)]
pub struct TransactionCounterparty {
    pub account_id: Option<String>,
    pub account_type: TransactionCounterpartyAccountType,
    pub id: Option<String>,
}

/// Where a transaction counterparty's account lives; `Self_` is named
/// `self` on the wire.
#[derive(Clone, Copy, Debug, PartialEq, Eq, Structural)]
pub enum TransactionCounterpartyAccountType {
    Self_,
    Revolut,
    External,
}

/// The card recorded on a card transaction.
#[derive(Clone, Debug, PartialEq, Eq)]
pub struct TransactionCard {
    pub id: String,
    pub card_number: String,
    pub first_name: Option<String>,
    pub last_name: Option<String>,
    pub phone: Option<String>,
}

/// How a single transaction is addressed: by its own identifier or by the
/// client-supplied request identifier.
pub enum RetrieveParam<'a> {
    Transaction { transaction_id: &'a str },
    Request { request_id: &'a str },
}

impl TransactionListParams {
    /// The parameters in declaration order: `from`, `to`, `account`,
    /// `count`, `type`.
    pub open spec fn spec_params(&self) -> Seq<(Seq<char>, Option<Seq<char>>)> {
        seq![
            ("from"@, spec_opt_str(self.from)),
            ("to"@, spec_opt_str(self.to)),
            ("account"@, spec_opt_str(self.account)),
            ("count"@, spec_opt_decimal(self.count)),
            (
                "type"@,
                match self.type_ {
                    Option::Some(t) => Option::Some(t.spec_wire_name()),
                    Option::None => Option::None,
                },
            ),
        ]
    }

    /// The query fragment of the filters.
    pub open spec fn spec_query(&self) -> Seq<char> {
        spec_query_string(self.spec_params())
    }

    /// Renders the filters as a query fragment: each present filter
    /// percent-encoded, joined with `&`, the first prefixed with `?`;
    /// absent filters contribute nothing.
    pub fn query_string(&self) -> (r: String)
        ensures
            r@ == self.spec_query(),
    {
        let mut query = String::new();
        let ghost mut done: Seq<(Seq<char>, Option<Seq<char>>)> = Seq::empty();
        proof {
            lemma_query_string_push(done, "from"@, spec_opt_str(self.from));
        }
        append_query_param(&mut query, "from", opt_as_str(&self.from));
        proof {
            done = done.push(("from"@, spec_opt_str(self.from)));
        }
        assert(query@ == spec_query_string(done));
        proof {
            lemma_query_string_push(done, "to"@, spec_opt_str(self.to));
        }
        append_query_param(&mut query, "to", opt_as_str(&self.to));
        proof {
            done = done.push(("to"@, spec_opt_str(self.to)));
        }
        assert(query@ == spec_query_string(done));
        proof {
            lemma_query_string_push(done, "account"@, spec_opt_str(self.account));
        }
        append_query_param(&mut query, "account", opt_as_str(&self.account));
        proof {
            done = done.push(("account"@, spec_opt_str(self.account)));
        }
        assert(query@ == spec_query_string(done));
        let count_rendered = match self.count {
            Option::Some(c) => Option::Some(text::decimal_string(c)),
            Option::None => Option::None,
        };
        proof {
            lemma_query_string_push(done, "count"@, spec_opt_decimal(self.count));
        }
        append_query_param(&mut query, "count", opt_as_str(&count_rendered));
        proof {
            done = done.push(("count"@, spec_opt_decimal(self.count)));
        }
        assert(query@ == spec_query_string(done));
        let ghost type_view = match self.type_ {
            Option::Some(t) => Option::Some(t.spec_wire_name()),
            Option::None => Option::<Seq<char>>::None,
        };
        proof {
            lemma_query_string_push(done, "type"@, type_view);
        }
        let type_value = match &self.type_ {
            Option::Some(t) => Option::Some(t.wire_name()),
            Option::None => Option::None,
        };
        append_query_param(&mut query, "type", type_value);
        proof {
            done = done.push(("type"@, type_view));
        }
        assert(query@ == spec_query_string(done));
        assert(done =~= self.spec_params());
        query
    }
}

/// The transaction-list request with its filters.
pub fn list<E: Environment>(env: &E, list_params: &TransactionListParams) -> (r: (
    HttpMethod,
    RevolutEndpoint,
))
    ensures
        r.0 is Get,
        r.1.0@ == env.spec_uri("1.0"@, "/transactions"@ + list_params.spec_query()),
{
    let query = list_params.query_string();
    let path = text::concat2("/transactions", query.as_str());
    (HttpMethod::Get, env.uri("1.0", path.as_str()))
}

/// The single-transaction request, addressed by transaction or request
/// identifier.
pub fn retrieve<'a, E: Environment>(env: &E, retrieve_param: RetrieveParam<'a>) -> (r: (
    HttpMethod,
    RevolutEndpoint,
))
    ensures
        r.0 is Get,
        match retrieve_param {
            RetrieveParam::Transaction { transaction_id } => r.1.0@ == env.spec_uri(
                "1.0"@,
                "/transaction/"@ + transaction_id@,
            ),
            RetrieveParam::Request { request_id } => r.1.0@ == env.spec_uri(
                "1.0"@,
                "/transaction/"@ + request_id@ + "?id_type=request_id"@,
            ),
        },
{
    let path = match retrieve_param {
        RetrieveParam::Transaction { transaction_id } => text::concat2(
            "/transaction/",
            transaction_id,
        ),
        RetrieveParam::Request { request_id } => text::concat3(
            "/transaction/",
            request_id,
            "?id_type=request_id",
        ),
    };
    (HttpMethod::Get, env.uri("1.0", path.as_str()))
}

} // verus!
