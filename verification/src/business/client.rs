//! Business client construction and the OAuth-style token lifecycle: the
//! typestate credential builder, the cached-token freshness decision, the
//! form-encoded grant requests and the authenticated request dispatch.

use vstd::prelude::*;
use vstd::string::StringExecFns;
use crate::client::{
    Client, ClientBuilder, Environment, HeaderPair, HttpMethod, MissingClientAuthentication,
    MissingEnvironment, RevolutEndpoint, TransportRequest, prepared_body_parts, spec_auth_headers,
    spec_body_matches, spec_content_headers, spec_headers_match, spec_verb_of, verb_of,
};
use crate::errors::{ClientBuilderError, ClientError, Error};
use crate::text;
use core::marker::PhantomData;

verus! {

/// A fresh Business client builder with both slots still unfilled.
pub fn business_client() -> (r: ClientBuilder<
    MissingEnvironment,
    MissingClientAuthentication,
    crate::BusinessClient,
>)
{
    ClientBuilder {
        environment: MissingEnvironment,
        authentication: MissingClientAuthentication,
        client_type: PhantomData,
    }
}

/// The token endpoint's answer to a refresh-token grant.
#[derive(Clone, Debug, PartialEq, Eq)]
pub struct ClientAuthenticationResponse {
    pub access_token: String,
    pub token_type: String,
    pub expires_in: i64,
}

/// The token endpoint's answer to an authorization-code grant.
#[derive(Clone, Debug, PartialEq, Eq)]
pub struct ClientAuthenticationWithRefreshTokenResponse {
    pub access_token: String,
    pub token_type: String,
    pub expires_in: u64,
    pub refresh_token: String,
}

/// Placeholder of a credential builder whose client assertion is unset.
pub struct MissingClientAssertion;

/// Placeholder of a credential builder whose authorization code is unset.
pub struct MissingAuthorizationCode;

/// Placeholder of a credential builder whose refresh token is unset.
pub struct MissingRefreshToken;

/// Marks the slot types that witness an absent authorization code.
pub trait MissingAuthorizationCodeT {
}

impl MissingAuthorizationCodeT for MissingAuthorizationCode {
}

/// Marks the slot types that witness an absent refresh token.
pub trait MissingRefreshTokenT {
}

impl MissingRefreshTokenT for MissingRefreshToken {
}

/// The Business credential builder: each slot is either its placeholder
/// type or a supplied `String`, so a credential cannot be built until
/// every mandatory slot holds a concrete value.
pub struct BusinessAuthenticationBuilder<A, C, R> {
    pub client_assertion: A,
    pub authorization_code: C,
    pub refresh_token: R,
}

impl Default for BusinessAuthenticationBuilder<
    MissingClientAssertion,
    MissingAuthorizationCode,
    MissingRefreshToken,
> {
    fn default() -> (r: Self)
        ensures
            r == (BusinessAuthenticationBuilder {
                client_assertion: MissingClientAssertion,
                authorization_code: MissingAuthorizationCode,
                refresh_token: MissingRefreshToken,
            }),
    {
        BusinessAuthenticationBuilder {
            client_assertion: MissingClientAssertion,
            authorization_code: MissingAuthorizationCode,
            refresh_token: MissingRefreshToken,
        }
    }
}

impl<A, C, R> BusinessAuthenticationBuilder<A, C, R> {
    /// Supplies the client assertion from the value the caller read from
    /// the named process environment variable; an unset variable (`None`)
    /// fails with `MissingEnvironmentVariable` and leaves no partial
    /// state behind.
    pub fn with_environment_inherited_client_assertion(
        self,
        client_assertion_environment_variable: &str,
        value: Option<String>,
    ) -> (r: Result<BusinessAuthenticationBuilder<String, C, R>, Error>)
        ensures
            match r {
                Result::Ok(b) => value matches Option::Some(v) && b.client_assertion == v
                    && b.authorization_code == self.authorization_code && b.refresh_token
                    == self.refresh_token,
                Result::Err(e) => value is None && (e matches Error::ClientBuilderError(
                    ClientBuilderError::MissingEnvironmentVariable(n),
                ) && n@ == client_assertion_environment_variable@),
            },
    {
        match value {
            Option::Some(client_assertion) => Result::Ok(
                BusinessAuthenticationBuilder {
                    client_assertion,
                    authorization_code: self.authorization_code,
                    refresh_token: self.refresh_token,
                },
            ),
            Option::None => Result::Err(
                Error::ClientBuilderError(
                    ClientBuilderError::MissingEnvironmentVariable(
                        client_assertion_environment_variable.to_owned(),
                    ),
                ),
            ),
        }
    }

    /// Supplies the client assertion directly.
    pub fn with_client_assertion(self, client_assertion: &str) -> (r: BusinessAuthenticationBuilder<
        String,
        C,
        R,
    >)
        ensures
            r.client_assertion@ == client_assertion@,
            r.authorization_code == self.authorization_code,
            r.refresh_token == self.refresh_token,
    {
        BusinessAuthenticationBuilder {
            client_assertion: client_assertion.to_owned(),
            authorization_code: self.authorization_code,
            refresh_token: self.refresh_token,
        }
    }
}

impl<A, C, R> BusinessAuthenticationBuilder<A, C, R> {
    /// Supplies the authorization code from the value the caller read from
    /// the named process environment variable; an unset variable (`None`)
    /// fails with `MissingEnvironmentVariable` and leaves no partial
    /// state behind.
    pub fn with_environment_inherited_authorization_code(
        self,
        authorization_code_environment_variable: &str,
        value: Option<String>,
    ) -> (r: Result<BusinessAuthenticationBuilder<A, String, R>, Error>)
        ensures
            match r {
                Result::Ok(b) => value matches Option::Some(v) && b.authorization_code == v
                    && b.client_assertion == self.client_assertion && b.refresh_token
                    == self.refresh_token,
                Result::Err(e) => value is None && (e matches Error::ClientBuilderError(
                    ClientBuilderError::MissingEnvironmentVariable(n),
                ) && n@ == authorization_code_environment_variable@),
            },
    {
        match value {
            Option::Some(authorization_code) => Result::Ok(
                BusinessAuthenticationBuilder {
                    client_assertion: self.client_assertion,
                    authorization_code,
                    refresh_token: self.refresh_token,
                },
            ),
            Option::None => Result::Err(
                Error::ClientBuilderError(
                    ClientBuilderError::MissingEnvironmentVariable(
                        authorization_code_environment_variable.to_owned(),
                    ),
                ),
            ),
        }
    }

    /// Supplies the authorization code directly.
    pub fn with_authorization_code(
        self,
        authorization_code: &str,
    ) -> (r: BusinessAuthenticationBuilder<A, String, R>)
        ensures
            r.authorization_code@ == authorization_code@,
            r.client_assertion == self.client_assertion,
            r.refresh_token == self.refresh_token,
    {
        BusinessAuthenticationBuilder {
            client_assertion: self.client_assertion,
            authorization_code: authorization_code.to_owned(),
            refresh_token: self.refresh_token,
        }
    }
}

impl<A, C, R> BusinessAuthenticationBuilder<A, C, R> {
    /// Supplies the refresh token from the value the caller read from the
    /// named process environment variable; an unset variable (`None`)
    /// fails with `MissingEnvironmentVariable` and leaves no partial
    /// state behind.
    pub fn with_environment_inherited_refresh_token(
        self,
        refresh_token_environment_variable: &str,
        value: Option<String>,
    ) -> (r: Result<BusinessAuthenticationBuilder<A, C, String>, Error>)
        ensures
            match r {
                Result::Ok(b) => value matches Option::Some(v) && b.refresh_token == v
                    && b.client_assertion == self.client_assertion && b.authorization_code
                    == self.authorization_code,
                Result::Err(e) => value is None && (e matches Error::ClientBuilderError(
                    ClientBuilderError::MissingEnvironmentVariable(n),
                ) && n@ == refresh_token_environment_variable@),
            },
    {
        match value {
            Option::Some(refresh_token) => Result::Ok(
                BusinessAuthenticationBuilder {
                    client_assertion: self.client_assertion,
                    authorization_code: self.authorization_code,
                    refresh_token,
                },
            ),
            Option::None => Result::Err(
                Error::ClientBuilderError(
                    ClientBuilderError::MissingEnvironmentVariable(
                        refresh_token_environment_variable.to_owned(),
                    ),
                ),
            ),
        }
    }

    /// Supplies the refresh token directly.
    pub fn with_refresh_token(self, refresh_token: &str) -> (r: BusinessAuthenticationBuilder<
        A,
        C,
        String,
    >)
        ensures
            r.refresh_token@ == refresh_token@,
            r.client_assertion == self.client_assertion,
            r.authorization_code == self.authorization_code,
    {
        BusinessAuthenticationBuilder {
            client_assertion: self.client_assertion,
            authorization_code: self.authorization_code,
            refresh_token: refresh_token.to_owned(),
        }
    }
}

impl<C: MissingAuthorizationCodeT> BusinessAuthenticationBuilder<String, C, String> {
    /// Finishes the refresh-token path: only reachable once the client
    /// assertion and the refresh token hold concrete values while the
    /// authorization-code slot still witnesses absence, so exactly the
    /// refresh-token grant is populated.
    pub fn build(self) -> (r: BusinessAuthentication)
        ensures
            r.client_assertion == self.client_assertion,
            r.authorization_code is None,
            r.refresh_token == Option::Some(self.refresh_token),
            r.grant_exclusive(),
    {
        BusinessAuthentication {
            client_assertion: self.client_assertion,
            authorization_code: Option::None,
            refresh_token: Option::Some(self.refresh_token),
        }
    }
}

impl<R: MissingRefreshTokenT> BusinessAuthenticationBuilder<String, String, R> {
    /// Finishes the authorization-code path: only reachable once the
    /// client assertion and the authorization code hold concrete values
    /// while the refresh-token slot still witnesses absence, so exactly
    /// the authorization-code grant is populated.
    pub fn build(self) -> (r: BusinessAuthentication)
        ensures
            r.client_assertion == self.client_assertion,
            r.authorization_code == Option::Some(self.authorization_code),
            r.refresh_token is None,
            r.grant_exclusive(),
    {
        BusinessAuthentication {
            client_assertion: self.client_assertion,
            authorization_code: Option::Some(self.authorization_code),
            refresh_token: Option::None,
        }
    }
}

/// A finished Business credential: the client assertion and exactly one
/// of the two grants.
#[derive(Clone, Debug, PartialEq, Eq)]
pub struct BusinessAuthentication {
    pub client_assertion: String,
    pub authorization_code: Option<String>,
    pub refresh_token: Option<String>,
}

impl BusinessAuthentication {
    /// Exactly one of the authorization code and the refresh token is
    /// populated — never both, never neither.
    pub open spec fn grant_exclusive(&self) -> bool {
        (self.authorization_code is Some) != (self.refresh_token is Some)
    }
}

impl<E> ClientBuilder<E, MissingClientAuthentication, crate::BusinessClient> {
    /// Attaches a finished Business credential; only available while the
    /// authentication slot is unfilled.
    pub fn with_authentication(self, authentication: BusinessAuthentication) -> (r: ClientBuilder<
        E,
        BusinessAuthentication,
        crate::BusinessClient,
    >)
        ensures
            r.environment == self.environment,
            r.authentication == authentication,
    {
        ClientBuilder {
            environment: self.environment,
            authentication,
            client_type: PhantomData,
        }
    }
}

impl<E: Environment, C> ClientBuilder<E, BusinessAuthentication, C> {
    /// Composes the selected environment and the finished credential into
    /// a ready client with an empty token cache. Instantiating the HTTP
    /// transport itself belongs to the embedding application, which
    /// surfaces a transport that cannot be constructed as
    /// `CannotInstantiateClient`.
    pub fn build(self) -> (r: Result<Client<E, BusinessAuthentication>, Error>)
        ensures
            r matches Result::Ok(c) && c.environment == self.environment && c.authentication
                == self.authentication && c.access_token is None && c.access_token_expires_at
                is None && c.secret_key is None,
    {
        Result::Ok(
            Client {
                environment: self.environment,
                authentication: self.authentication,
                access_token_expires_at: Option::None,
                access_token: Option::None,
                secret_key: Option::None,
            },
        )
    }
}

/// One form-encoded field of a token-endpoint request.
#[derive(Clone, Debug, PartialEq, Eq)]
pub struct FormParam {
    pub key: String,
    pub value: String,
}

/// A token-endpoint request: the resolved URL and the form fields posted
/// to it.
#[derive(Clone, Debug)]
pub struct TokenRequest {
    pub endpoint: RevolutEndpoint,
    pub params: Vec<FormParam>,
}

/// Whether a form-field list is exactly an expected sequence of key/value
/// pairs, in order.
pub open spec fn spec_form_matches(ps: Seq<FormParam>, expect: Seq<(Seq<char>, Seq<char>)>) -> bool {
    ps.len() == expect.len() && (forall|i: int|
        0 <= i < ps.len() ==> ps[i].key@ == expect[i].0 && ps[i].value@ == expect[i].1)
}

/// The form fields of the refresh-token grant.
pub open spec fn spec_refresh_token_form(client_assertion: Seq<char>, refresh_token: Seq<char>) -> Seq<
    (Seq<char>, Seq<char>),
> {
    seq![
        ("grant_type"@, "refresh_token"@),
        ("refresh_token"@, refresh_token),
        ("client_assertion_type"@, "urn:ietf:params:oauth:client-assertion-type:jwt-bearer"@),
        ("client_assertion"@, client_assertion),
    ]
}

/// The form fields of the authorization-code grant.
pub open spec fn spec_authorization_code_form(
    client_assertion: Seq<char>,
    authorization_code: Seq<char>,
) -> Seq<(Seq<char>, Seq<char>)> {
    seq![
        ("grant_type"@, "authorization_code"@),
        ("code"@, authorization_code),
        ("client_assertion_type"@, "urn:ietf:params:oauth:client-assertion-type:jwt-bearer"@),
        ("client_assertion"@, client_assertion),
    ]
}

/// The saturating sum of two timestamps/durations in seconds.
pub open spec fn spec_sat_add_i64(a: i64, b: i64) -> i64 {
    if a + b > i64::MAX {
        i64::MAX
    } else if a + b < i64::MIN {
        i64::MIN
    } else {
        (a + b) as i64
    }
}

/// The saturating sum of two signed 64-bit values.
fn sat_add_i64(a: i64, b: i64) -> (r: i64)
    ensures
        r == spec_sat_add_i64(a, b),
{
    if b >= 0 {
        if a > i64::MAX - b {
            i64::MAX
        } else {
            a + b
        }
    } else {
        if a < i64::MIN - b {
            i64::MIN
        } else {
            a + b
        }
    }
}

/// A cached token whose expiry lies strictly in the future suppresses
/// login at the current time, and stops doing so at any time from the
/// expiry on: one login refreshing the cache is enough until the new
/// expiry is reached.
pub proof fn lemma_token_freshness<E: Environment>(
    c: Client<E, BusinessAuthentication>,
    expires_at: i64,
    now: i64,
    later: i64,
)
    requires
        c.access_token_expires_at == Option::Some(expires_at),
    ensures
        now < expires_at ==> c.spec_token_fresh(now),
        later >= expires_at ==> !c.spec_token_fresh(later),
{
}

/// Relies on `chrono::Utc::now` for the current wall-clock time, as unix
/// seconds; nothing is promised of the value.
#[verifier::external_body]
fn now_unix() -> i64 {
    chrono::Utc::now().timestamp()
}

impl<E: Environment> Client<E, BusinessAuthentication> {
    /// Whether the cached token is still usable at the given time: an
    /// expiry is recorded and lies strictly in the future.
    pub open spec fn spec_token_fresh(&self, now: i64) -> bool {
        self.access_token_expires_at matches Option::Some(e) && e > now
    }

    /// Whether an authenticated call issued at the given time must log in
    /// first: no expiry is recorded, or it has been reached.
    pub fn needs_login(&self, now: i64) -> (r: bool)
        ensures
            r <==> !self.spec_token_fresh(now),
    {
        match self.access_token_expires_at {
            Option::Some(expires_at) => !(expires_at > now),
            Option::None => true,
        }
    }

    /// The refresh-token grant request, posted form-encoded to the token
    /// endpoint; fails with `CannotLogIn` exactly when the credential
    /// lacks a refresh token.
    pub fn login_with_refresh_token_request(&self) -> (r: Result<TokenRequest, Error>)
        ensures
            match r {
                Result::Ok(t) => self.authentication.refresh_token matches Option::Some(tok)
                    && t.endpoint.0@ == self.environment.spec_uri("1.0"@, "/auth/token"@)
                    && spec_form_matches(
                    t.params@,
                    spec_refresh_token_form(self.authentication.client_assertion@, tok@),
                ),
                Result::Err(e) => self.authentication.refresh_token is None && (e matches Error::ClientError(
                    ClientError::CannotLogIn(m),
                ) && m@ == "missing refresh token"@),
            },
    {
        match &self.authentication.refresh_token {
            Option::Some(refresh_token) => {
                let mut params: Vec<FormParam> = Vec::new();
                params.push(
                    FormParam {
                        key: String::from_str("grant_type"),
                        value: String::from_str("refresh_token"),
                    },
                );
                params.push(
                    FormParam {
                        key: String::from_str("refresh_token"),
                        value: refresh_token.clone(),
                    },
                );
                params.push(
                    FormParam {
                        key: String::from_str("client_assertion_type"),
                        value: String::from_str(
                            "urn:ietf:params:oauth:client-assertion-type:jwt-bearer",
                        ),
                    },
                );
                params.push(
                    FormParam {
                        key: String::from_str("client_assertion"),
                        value: self.authentication.client_assertion.clone(),
                    },
                );
                Result::Ok(TokenRequest { endpoint: self.environment.uri("1.0", "/auth/token"), params })
            },
            Option::None => Result::Err(
                Error::ClientError(ClientError::CannotLogIn(String::from_str("missing refresh token"))),
            ),
        }
    }

    /// The authorization-code grant request, posted form-encoded to the
    /// token endpoint; fails with `CannotLogIn` exactly when the
    /// credential lacks an authorization code.
    pub fn login_with_authorization_code_request(&self) -> (r: Result<TokenRequest, Error>)
        ensures
            match r {
                Result::Ok(t) => self.authentication.authorization_code matches Option::Some(code)
                    && t.endpoint.0@ == self.environment.spec_uri("1.0"@, "/auth/token"@)
                    && spec_form_matches(
                    t.params@,
                    spec_authorization_code_form(self.authentication.client_assertion@, code@),
                ),
                Result::Err(e) => self.authentication.authorization_code is None && (
                e matches Error::ClientError(ClientError::CannotLogIn(m)) && m@
                    == "missing authorization code"@),
            },
    {
        match &self.authentication.authorization_code {
            Option::Some(authorization_code) => {
                let mut params: Vec<FormParam> = Vec::new();
                params.push(
                    FormParam {
                        key: String::from_str("grant_type"),
                        value: String::from_str("authorization_code"),
                    },
                );
                params.push(
                    FormParam { key: String::from_str("code"), value: authorization_code.clone() },
                );
                params.push(
                    FormParam {
                        key: String::from_str("client_assertion_type"),
                        value: String::from_str(
                            "urn:ietf:params:oauth:client-assertion-type:jwt-bearer",
                        ),
                    },
                );
                params.push(
                    FormParam {
                        key: String::from_str("client_assertion"),
                        value: self.authentication.client_assertion.clone(),
                    },
                );
                Result::Ok(TokenRequest { endpoint: self.environment.uri("1.0", "/auth/token"), params })
            },
            Option::None => Result::Err(
                Error::ClientError(
                    ClientError::CannotLogIn(String::from_str("missing authorization code")),
                ),
            ),
        }
    }

    /// Records a successful login: the cached access token is overwritten
    /// and its expiry becomes the current time plus the advertised
    /// lifetime (saturating at the ends of the timestamp range); nothing
    /// else of the client changes.
    pub fn apply_login_response(&mut self, access_token: String, expires_in: i64, now: i64)
        ensures
            final (self).access_token == Option::Some(access_token),
            final (self).access_token_expires_at == Option::Some(spec_sat_add_i64(now, expires_in)),
            final (self).environment == old(self).environment,
            final (self).authentication == old(self).authentication,
            final (self).secret_key == old(self).secret_key,
    {
        self.access_token = Option::Some(access_token);
        self.access_token_expires_at = Option::Some(sat_add_i64(now, expires_in));
    }

    /// The first step of an authenticated call, decided by the wall
    /// clock: nothing to do while the cached token is fresh, otherwise the
    /// refresh-token grant request that must be posted (the only grant
    /// wired into the automatic refresh cycle), whose failure is the
    /// credential lacking a refresh token.
    pub fn ensure_logged_in(&self) -> (r: Result<Option<TokenRequest>, Error>)
        ensures
            match r {
                Result::Ok(t) => match t {
                    Option::None => self.access_token_expires_at is Some,
                    Option::Some(req) => self.authentication.refresh_token matches Option::Some(
                        tok,
                    ) && req.endpoint.0@ == self.environment.spec_uri("1.0"@, "/auth/token"@)
                        && spec_form_matches(
                        req.params@,
                        spec_refresh_token_form(self.authentication.client_assertion@, tok@),
                    ),
                },
                Result::Err(e) => self.authentication.refresh_token is None && (e matches Error::ClientError(
                    ClientError::CannotLogIn(m),
                ) && m@ == "missing refresh token"@),
            },
    {
        let now = now_unix();
        if !self.needs_login(now) {
            Result::Ok(Option::None)
        } else {
            match self.login_with_refresh_token_request() {
                Result::Ok(t) => Result::Ok(Option::Some(t)),
                Result::Err(e) => Result::Err(e),
            }
        }
    }

    /// Turns a logical operation into the outgoing transport request,
    /// bearing the cached access token; fails with `CannotLogIn` exactly
    /// when no token is cached (defensive — after a successful login one
    /// always is).
    pub fn prepare_request(&self, method: HttpMethod, uri: &RevolutEndpoint) -> (r: Result<
        TransportRequest,
        Error,
    >)
        ensures
            match r {
                Result::Ok(req) => self.access_token matches Option::Some(tok) && req.verb
                    == spec_verb_of(method) && req.url@ == uri.0@ && spec_headers_match(
                    req.headers@,
                    spec_content_headers(method) + spec_auth_headers(tok@),
                ) && spec_body_matches(method, req.body),
                Result::Err(e) => self.access_token is None && (e matches Error::ClientError(
                    ClientError::CannotLogIn(m),
                ) && m@ == "could not retrieve access token"@),
            },
    {
        match &self.access_token {
            Option::Some(access_token) => {
                let verb = verb_of(&method);
                let ghost expect = spec_content_headers(method) + spec_auth_headers(
                    access_token@,
                );
                let (body, mut headers) = prepared_body_parts(method);
                let ghost content_count = headers@.len();
                headers.push(
                    HeaderPair {
                        name: String::from_str("Authorization"),
                        value: text::concat2("Bearer ", access_token.as_str()),
                    },
                );
                headers.push(
                    HeaderPair {
                        name: String::from_str("Accept"),
                        value: String::from_str("application/json"),
                    },
                );
                proof {
                    assert forall|i: int| 0 <= i < headers@.len() implies headers@[i].name@
                        == expect[i].0 && headers@[i].value@ == expect[i].1 by {
                        if i < content_count {
                        } else if i == content_count {
                        } else {
                        }
                    }
                }
                Result::Ok(TransportRequest { verb, url: uri.0.clone(), headers, body })
            },
            Option::None => Result::Err(
                Error::ClientError(
                    ClientError::CannotLogIn(String::from_str("could not retrieve access token")),
                ),
            ),
        }
    }
}

} // verus!
