//! Business team members: the list query parameters, the payload shapes
//! and the request descriptions of the endpoints, which exist only in the
//! production environment.

use vstd::prelude::*;
use crate::client::{Body, Environment, HttpMethod, ProductionEnvironment, RevolutEndpoint};
use crate::query::{
    append_query_param, lemma_query_string_push, opt_as_str, spec_opt_decimal, spec_opt_str,
    spec_query_string,
};
use crate::text;

verus! {

/// The optional filters of the team-member list, rendered as query
/// parameters in declaration order.
#[derive(Clone, Debug)]
pub struct ListParams {
    pub created_before: Option<String>,
    pub limit: Option<u64>,
}

impl Default for ListParams {
    /// No filters at all.
    fn default() -> (r: Self)
        ensures
            r.created_before is None,
            r.limit is None,
    {
        ListParams { created_before: Option::None, limit: Option::None }
    }
}

/// A member of the business, as the backend reports it.
#[derive(Clone, Debug, PartialEq, Eq)]
pub struct TeamMember {
    pub id: String,
    pub email: String,
    pub first_name: Option<String>,
    pub last_name: Option<String>,
    pub state: TeamMemberState,
    pub role_id: String,
    pub created_at: String,
    pub updated_at: String,
}

/// The lifecycle state of a team member.
#[derive(Clone, Copy, Debug, PartialEq, Eq, Structural)]
pub enum TeamMemberState {
    Created,
    Confirmed,
    Waiting,
    Active,
    Locked,
    Disabled,
}

/// An invitation payload for a new member.
#[derive(Clone, Debug, PartialEq, Eq)]
pub struct TeamMemberInviteRequest {
    pub email: String,
    pub role_id: String,
}

/// A pending invitation, as the backend reports it.
#[derive(Clone, Debug, PartialEq, Eq)]
pub struct TeamMemberInvite {
    pub email: String,
    pub id: String,
    pub role_id: String,
    pub created_at: String,
    pub updated_at: String,
}

/// A role members can hold.
#[derive(Clone, Debug, PartialEq, Eq)]
pub struct TeamRole {
    pub id: String,
    pub name: String,
    pub created_at: String,
    pub updated_at: String,
}

impl ListParams {
    /// The parameters in declaration order: `created_before`, `limit`.
    pub open spec fn spec_params(&self) -> Seq<(Seq<char>, Option<Seq<char>>)> {
        seq![
            ("created_before"@, spec_opt_str(self.created_before)),
            ("limit"@, spec_opt_decimal(self.limit)),
        ]
    }

    /// The query fragment of the filters.
    pub open spec fn spec_query(&self) -> Seq<char> {
        spec_query_string(self.spec_params())
    }

    /// Renders the filters as a query fragment: each present filter
    /// percent-encoded, joined with `&`, the first prefixed with `?`;
    /// absent filters contribute nothing.
    pub fn query_string(&self) -> (r: String)
        ensures
            r@ == self.spec_query(),
    {
        let mut query = String::new();
        let ghost mut done: Seq<(Seq<char>, Option<Seq<char>>)> = Seq::empty();
        proof {
            lemma_query_string_push(done, "created_before"@, spec_opt_str(self.created_before));
        }
        append_query_param(&mut query, "created_before", opt_as_str(&self.created_before));
        proof {
            done = done.push(("created_before"@, spec_opt_str(self.created_before)));
        }
        assert(query@ == spec_query_string(done));
        let limit_rendered = match self.limit {
            Option::Some(l) => Option::Some(text::decimal_string(l)),
            Option::None => Option::None,
        };
        proof {
            lemma_query_string_push(done, "limit"@, spec_opt_decimal(self.limit));
        }
        append_query_param(&mut query, "limit", opt_as_str(&limit_rendered));
        proof {
            done = done.push(("limit"@, spec_opt_decimal(self.limit)));
        }
        assert(query@ == spec_query_string(done));
        assert(done =~= self.spec_params());
        query
    }
}

/// The team-member list request with its filters; team members exist only
/// in production.
pub fn list(env: &ProductionEnvironment<crate::BusinessClient>, list_params: &ListParams) -> (r: (
    HttpMethod,
    RevolutEndpoint,
))
    ensures
        r.0 is Get,
        r.1.0@ == env.spec_uri("1.0"@, "/team-members"@ + list_params.spec_query()),
{
    let query = list_params.query_string();
    let path = text::concat2("/team-members", query.as_str());
    (HttpMethod::Get, env.uri("1.0", path.as_str()))
}

/// The member invitation request with its already JSON-encoded payload.
pub fn invite_new_member(
    env: &ProductionEnvironment<crate::BusinessClient>,
    member_invite: Vec<u8>,
) -> (r: (HttpMethod, RevolutEndpoint))
    ensures
        r.0 matches HttpMethod::Post { body: b } && (b matches Option::Some(inner) && (
        inner matches Body::Json(j) && j@ == member_invite@)),
        r.1.0@ == env.spec_uri("1.0"@, "/team-members"@),
{
    (
        HttpMethod::Post { body: Option::Some(Body::Json(member_invite)) },
        env.uri("1.0", "/team-members"),
    )
}

/// The role-list request.
pub fn list_team_roles(env: &ProductionEnvironment<crate::BusinessClient>) -> (r: (
    HttpMethod,
    RevolutEndpoint,
))
    ensures
        r.0 is Get,
        r.1.0@ == env.spec_uri("1.0"@, "/roles"@),
{
    (HttpMethod::Get, env.uri("1.0", "/roles"))
}

} // verus!
