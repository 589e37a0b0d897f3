//! Merchant client construction and request dispatch: the secret-key
//! credential builder and the authenticated transport request, which
//! carries the fixed API-version header.

use vstd::prelude::*;
use vstd::string::StringExecFns;
use crate::client::{
    Client, ClientBuilder, Environment, HeaderPair, HttpMethod, MissingClientAuthentication,
    MissingEnvironment, RevolutEndpoint, TransportRequest, prepared_body_parts, spec_auth_headers,
    spec_body_matches, spec_content_headers, spec_headers_match, spec_verb_of, verb_of,
};
use crate::errors::{ClientBuilderError, ClientError, Error};
use crate::text;
use core::marker::PhantomData;

verus! {

/// A fresh Merchant client builder with both slots still unfilled.
pub fn merchant_client() -> (r: ClientBuilder<
    MissingEnvironment,
    MissingClientAuthentication,
    crate::MerchantClient,
>)
{
    ClientBuilder {
        environment: MissingEnvironment,
        authentication: MissingClientAuthentication,
        client_type: PhantomData,
    }
}

/// Placeholder of a credential builder whose secret key is unset.
pub struct MissingSecretKey;

/// Marks the slot types that witness an absent secret key.
pub trait MissingSecretKeyT {
}

impl MissingSecretKeyT for MissingSecretKey {
}

/// The Merchant credential builder: the secret-key slot is either its
/// placeholder type or a supplied `String`, so the credential cannot be
/// built until the key holds a concrete value.
pub struct MerchantAuthenticationBuilder<S> {
    pub secret_key: S,
}

impl Default for MerchantAuthenticationBuilder<MissingSecretKey> {
    fn default() -> (r: Self)
        ensures
            r == (MerchantAuthenticationBuilder { secret_key: MissingSecretKey }),
    {
        MerchantAuthenticationBuilder { secret_key: MissingSecretKey }
    }
}

impl<S> MerchantAuthenticationBuilder<S> {
    /// Supplies the secret key from the value the caller read from the
    /// named process environment variable; an unset variable (`None`)
    /// fails with `MissingEnvironmentVariable` and leaves no partial
    /// state behind.
    pub fn with_environment_inherited_secret_key(
        self,
        secret_key_environment_variable: &str,
        value: Option<String>,
    ) -> (r: Result<MerchantAuthenticationBuilder<String>, ClientBuilderError>)
        ensures
            match r {
                Result::Ok(b) => value matches Option::Some(v) && b.secret_key == v,
                Result::Err(e) => value is None && (e matches ClientBuilderError::MissingEnvironmentVariable(
                    n,
                ) && n@ == secret_key_environment_variable@),
            },
    {
        match value {
            Option::Some(secret_key) => Result::Ok(MerchantAuthenticationBuilder { secret_key }),
            Option::None => Result::Err(
                ClientBuilderError::MissingEnvironmentVariable(
                    secret_key_environment_variable.to_owned(),
                ),
            ),
        }
    }

    /// Supplies the secret key directly.
    pub fn with_secret_key(self, secret_key: &str) -> (r: MerchantAuthenticationBuilder<String>)
        ensures
            r.secret_key@ == secret_key@,
    {
        MerchantAuthenticationBuilder { secret_key: secret_key.to_owned() }
    }
}

impl MerchantAuthenticationBuilder<String> {
    /// Finishes the credential; only reachable once the secret key holds a
    /// concrete value.
    pub fn build(self) -> (r: MerchantAuthentication)
        ensures
            r.secret_key == self.secret_key,
    {
        MerchantAuthentication { secret_key: self.secret_key }
    }
}

/// A finished Merchant credential: a static bearer secret key with no
/// refresh cycle.
#[derive(Clone, Debug, PartialEq, Eq)]
pub struct MerchantAuthentication {
    pub secret_key: String,
}

impl<E> ClientBuilder<E, MissingClientAuthentication, crate::MerchantClient> {
    /// Attaches a finished Merchant credential; only available while the
    /// authentication slot is unfilled.
    pub fn with_authentication(self, authentication: MerchantAuthentication) -> (r: ClientBuilder<
        E,
        MerchantAuthentication,
        crate::MerchantClient,
    >)
        ensures
            r.environment == self.environment,
            r.authentication == authentication,
    {
        ClientBuilder {
            environment: self.environment,
            authentication,
            client_type: PhantomData,
        }
    }
}

impl<E: Environment, C> ClientBuilder<E, MerchantAuthentication, C> {
    /// Composes the selected environment and the finished credential into
    /// a ready client whose secret key is copied in. Instantiating the
    /// HTTP transport itself belongs to the embedding application, which
    /// surfaces a transport that cannot be constructed as
    /// `CannotInstantiateClient`.
    pub fn build(self) -> (r: Result<Client<E, MerchantAuthentication>, ClientBuilderError>)
        ensures
            r matches Result::Ok(c) && c.environment == self.environment && c.authentication
                == self.authentication && (c.secret_key matches Option::Some(k) && k
                == self.authentication.secret_key) && c.access_token is None
                && c.access_token_expires_at is None,
    {
        let secret_key = self.authentication.secret_key.clone();
        Result::Ok(
            Client {
                environment: self.environment,
                authentication: self.authentication,
                access_token_expires_at: Option::None,
                access_token: Option::None,
                secret_key: Option::Some(secret_key),
            },
        )
    }
}

/// The fixed API-version header every Merchant request carries.
pub open spec fn spec_merchant_version_header() -> Seq<(Seq<char>, Seq<char>)> {
    seq![("Revolut-Api-Version"@, "2024-09-01"@)]
}

impl<E: Environment> Client<E, MerchantAuthentication> {
    /// Turns a logical operation into the outgoing transport request,
    /// bearing the static secret key and the fixed API-version header;
    /// fails with `CannotLogIn` exactly when the key is absent from the
    /// client (defensive — building a Merchant client always copies it
    /// in).
    pub fn prepare_request(&self, method: HttpMethod, uri: &RevolutEndpoint) -> (r: Result<
        TransportRequest,
        Error,
    >)
        ensures
            match r {
                Result::Ok(req) => self.secret_key matches Option::Some(key) && req.verb
                    == spec_verb_of(method) && req.url@ == uri.0@ && spec_headers_match(
                    req.headers@,
                    spec_content_headers(method) + spec_auth_headers(key@)
                        + spec_merchant_version_header(),
                ) && spec_body_matches(method, req.body),
                Result::Err(e) => self.secret_key is None && (e matches Error::ClientError(
                    ClientError::CannotLogIn(m),
                ) && m@ == "could not retrieve secret key"@),
            },
    {
        match &self.secret_key {
            Option::Some(secret_key) => {
                let verb = verb_of(&method);
                let ghost expect = spec_content_headers(method) + spec_auth_headers(secret_key@)
                    + spec_merchant_version_header();
                let (body, mut headers) = prepared_body_parts(method);
                let ghost content_count = headers@.len();
                headers.push(
                    HeaderPair {
                        name: String::from_str("Authorization"),
                        value: text::concat2("Bearer ", secret_key.as_str()),
                    },
                );
                headers.push(
                    HeaderPair {
                        name: String::from_str("Accept"),
                        value: String::from_str("application/json"),
                    },
                );
                headers.push(
                    HeaderPair {
                        name: String::from_str("Revolut-Api-Version"),
                        value: String::from_str("2024-09-01"),
                    },
                );
                proof {
                    assert forall|i: int| 0 <= i < headers@.len() implies headers@[i].name@
                        == expect[i].0 && headers@[i].value@ == expect[i].1 by {
                        if i < content_count {
                        } else {
                        }
                    }
                }
                Result::Ok(TransportRequest { verb, url: uri.0.clone(), headers, body })
            },
            Option::None => Result::Err(
                Error::ClientError(
                    ClientError::CannotLogIn(String::from_str("could not retrieve secret key")),
                ),
            ),
        }
    }
}

} // verus!
