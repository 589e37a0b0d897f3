//! Product-independent core: the client value, the typestate client
//! builder, the endpoint resolver and the request-dispatch plan that the
//! transport executes.

use vstd::prelude::*;
use crate::errors::{ClientError, Error};
use crate::text;
use core::marker::PhantomData;

verus! {

/// Placeholder of a [`ClientBuilder`] whose environment is still
/// unselected.
pub struct MissingEnvironment;

/// Placeholder of a [`ClientBuilder`] whose authentication is still
/// unattached.
pub struct MissingClientAuthentication;

/// One named part of a multipart form body.
#[derive(Clone, Debug)]
pub struct Part {
    pub contents: Vec<u8>,
    pub mime_str: String,
    pub file_name: String,
}

/// The body of an outgoing request: an already JSON-encoded payload, raw
/// bytes, or a multipart form.
#[derive(Clone, Debug)]
pub enum Body {
    Json(Vec<u8>),
    Raw(Vec<u8>),
    Multipart(Vec<Part>),
}

/// A logical HTTP operation: the verb together with its optional body.
#[derive(Clone, Debug)]
pub enum HttpMethod {
    Get,
    Delete,
    Post { body: Option<Body> },
    Patch { body: Option<Body> },
    Put { body: Option<Body> },
}

/// A fully qualified URL of the remote API.
#[derive(Clone, Debug)]
pub struct RevolutEndpoint(pub String);

/// How a product/environment pair renders fully qualified URLs.
pub trait Environment: Sized {
    /// The URL for a versioned path.
    spec fn spec_uri(&self, version: Seq<char>, path: Seq<char>) -> Seq<char>;

    /// Whether this product/environment pair serves unversioned paths at
    /// all; where it does not, [`Environment::unversioned_uri`] is
    /// unreachable.
    spec fn spec_supports_unversioned(&self) -> bool;

    /// The URL for an unversioned path.
    spec fn spec_unversioned_uri(&self, path: Seq<char>) -> Seq<char>;

    fn uri(&self, version: &str, path: &str) -> (r: RevolutEndpoint)
        ensures
            r.0@ == self.spec_uri(version@, path@),
    ;

    fn unversioned_uri(&self, path: &str) -> (r: RevolutEndpoint)
        requires
            self.spec_supports_unversioned(),
        ensures
            r.0@ == self.spec_unversioned_uri(path@),
    ;
}

/// The sandbox deployment of a product.
#[derive(Debug)]
pub struct SandboxEnvironment<C> {
    pub client_type: PhantomData<C>,
}

/// The production deployment of a product.
#[derive(Debug)]
pub struct ProductionEnvironment<C> {
    pub client_type: PhantomData<C>,
}

impl Environment for SandboxEnvironment<crate::BusinessClient> {
    open spec fn spec_uri(&self, version: Seq<char>, path: Seq<char>) -> Seq<char> {
        "https://sandbox-b2b.revolut.com/api/"@ + version + path
    }

    open spec fn spec_supports_unversioned(&self) -> bool {
        false
    }

    open spec fn spec_unversioned_uri(&self, path: Seq<char>) -> Seq<char> {
        Seq::<char>::empty()
    }

    fn uri(&self, version: &str, path: &str) -> (r: RevolutEndpoint) {
        RevolutEndpoint(text::concat3("https://sandbox-b2b.revolut.com/api/", version, path))
    }

    fn unversioned_uri(&self, path: &str) -> (r: RevolutEndpoint) {
        vstd::pervasive::unreached()
    }
}

impl Environment for ProductionEnvironment<crate::BusinessClient> {
    open spec fn spec_uri(&self, version: Seq<char>, path: Seq<char>) -> Seq<char> {
        "https://b2b.revolut.com/api/"@ + version + path
    }

    open spec fn spec_supports_unversioned(&self) -> bool {
        false
    }

    open spec fn spec_unversioned_uri(&self, path: Seq<char>) -> Seq<char> {
        Seq::<char>::empty()
    }

    fn uri(&self, version: &str, path: &str) -> (r: RevolutEndpoint) {
        RevolutEndpoint(text::concat3("https://b2b.revolut.com/api/", version, path))
    }

    fn unversioned_uri(&self, path: &str) -> (r: RevolutEndpoint) {
        vstd::pervasive::unreached()
    }
}

impl Environment for SandboxEnvironment<crate::MerchantClient> {
    open spec fn spec_uri(&self, version: Seq<char>, path: Seq<char>) -> Seq<char> {
        self.spec_unversioned_uri("/"@ + version + path)
    }

    open spec fn spec_supports_unversioned(&self) -> bool {
        true
    }

    open spec fn spec_unversioned_uri(&self, path: Seq<char>) -> Seq<char> {
        "https://sandbox-merchant.revolut.com/api"@ + path
    }

    fn uri(&self, version: &str, path: &str) -> (r: RevolutEndpoint) {
        let versioned = text::concat3("/", version, path);
        self.unversioned_uri(versioned.as_str())
    }

    fn unversioned_uri(&self, path: &str) -> (r: RevolutEndpoint) {
        RevolutEndpoint(text::concat2("https://sandbox-merchant.revolut.com/api", path))
    }
}

impl Environment for ProductionEnvironment<crate::MerchantClient> {
    open spec fn spec_uri(&self, version: Seq<char>, path: Seq<char>) -> Seq<char> {
        self.spec_unversioned_uri(version + path)
    }

    open spec fn spec_supports_unversioned(&self) -> bool {
        true
    }

    open spec fn spec_unversioned_uri(&self, path: Seq<char>) -> Seq<char> {
        "https://merchant.revolut.com/api/"@ + path
    }

    fn uri(&self, version: &str, path: &str) -> (r: RevolutEndpoint) {
        let versioned = text::concat2(version, path);
        self.unversioned_uri(versioned.as_str())
    }

    fn unversioned_uri(&self, path: &str) -> (r: RevolutEndpoint) {
        RevolutEndpoint(text::concat2("https://merchant.revolut.com/api/", path))
    }
}

/// A client under construction: the environment slot, the authentication
/// slot and the fixed product marker. `build` only becomes available once
/// both slots hold finished values.
pub struct ClientBuilder<E, A, C> {
    pub environment: E,
    pub authentication: A,
    pub client_type: PhantomData<C>,
}

impl<A, C> ClientBuilder<MissingEnvironment, A, C> {
    /// Selects the sandbox deployment; only available while the
    /// environment is unselected.
    pub fn with_sandbox_environment(self) -> (r: ClientBuilder<SandboxEnvironment<C>, A, C>)
        ensures
            r.authentication == self.authentication,
    {
        ClientBuilder {
            environment: SandboxEnvironment { client_type: PhantomData },
            authentication: self.authentication,
            client_type: PhantomData,
        }
    }

    /// Selects the production deployment; only available while the
    /// environment is unselected.
    pub fn with_production_environment(self) -> (r: ClientBuilder<ProductionEnvironment<C>, A, C>)
        ensures
            r.authentication == self.authentication,
    {
        ClientBuilder {
            environment: ProductionEnvironment { client_type: PhantomData },
            authentication: self.authentication,
            client_type: PhantomData,
        }
    }
}

/// A ready client: the selected environment, the finished authentication
/// value and, depending on the product, the cached Business bearer token
/// with its expiry (unix seconds) or the Merchant secret key. The token
/// cache is overwritten as a whole through the exclusive reference, so a
/// single owner at a time drives the token lifecycle; callers sharing one
/// client must serialize their calls themselves.
pub struct Client<E, T> {
    pub environment: E,
    pub authentication: T,
    pub access_token_expires_at: Option<i64>,
    pub access_token: Option<String>,
    pub secret_key: Option<String>,
}

/// The verb of an outgoing transport request.
#[derive(Clone, Copy, Debug, PartialEq, Eq, Structural)]
pub enum Verb {
    Get,
    Delete,
    Post,
    Patch,
    Put,
}

/// One header of an outgoing transport request.
#[derive(Clone, Debug)]
pub struct HeaderPair {
    pub name: String,
    pub value: String,
}

/// The body handed to the transport: nothing, plain bytes, or a multipart
/// form the transport encodes itself.
#[derive(Clone, Debug)]
pub enum PreparedBody {
    Empty,
    Bytes(Vec<u8>),
    Multipart(Vec<Part>),
}

/// A fully described outgoing request: everything the transport needs, in
/// order — verb, URL, headers and body.
#[derive(Clone, Debug)]
pub struct TransportRequest {
    pub verb: Verb,
    pub url: String,
    pub headers: Vec<HeaderPair>,
    pub body: PreparedBody,
}

/// The verb of a logical operation.
pub open spec fn spec_verb_of(m: HttpMethod) -> Verb {
    match m {
        HttpMethod::Get => Verb::Get,
        HttpMethod::Delete => Verb::Delete,
        HttpMethod::Post { .. } => Verb::Post,
        HttpMethod::Patch { .. } => Verb::Patch,
        HttpMethod::Put { .. } => Verb::Put,
    }
}

/// The verb of a logical operation.
pub fn verb_of(m: &HttpMethod) -> (r: Verb)
    ensures
        r == spec_verb_of(*m),
{
    match m {
        HttpMethod::Get => Verb::Get,
        HttpMethod::Delete => Verb::Delete,
        HttpMethod::Post { .. } => Verb::Post,
        HttpMethod::Patch { .. } => Verb::Patch,
        HttpMethod::Put { .. } => Verb::Put,
    }
}

/// Whether the verb of a logical operation normally carries a body.
pub open spec fn spec_carries_body(m: HttpMethod) -> bool {
    match m {
        HttpMethod::Get | HttpMethod::Delete => false,
        HttpMethod::Post { .. } | HttpMethod::Patch { .. } | HttpMethod::Put { .. } => true,
    }
}

/// The body of a logical operation, for the verbs that carry one.
pub open spec fn spec_method_body(m: HttpMethod) -> Option<Body> {
    match m {
        HttpMethod::Get | HttpMethod::Delete => Option::None,
        HttpMethod::Post { body } => body,
        HttpMethod::Patch { body } => body,
        HttpMethod::Put { body } => body,
    }
}

/// The body-describing headers of a logical operation: a JSON body is
/// announced with its content type, and an absent body on a verb that
/// normally carries one is announced with an explicit zero content length
/// (some backends reject unannounced empty bodies).
pub open spec fn spec_content_headers(m: HttpMethod) -> Seq<(Seq<char>, Seq<char>)> {
    if !spec_carries_body(m) {
        Seq::<(Seq<char>, Seq<char>)>::empty()
    } else {
        match spec_method_body(m) {
            Option::None => seq![("Content-Length"@, "0"@)],
            Option::Some(Body::Json(_)) => seq![("Content-Type"@, "application/json"@)],
            Option::Some(_) => Seq::<(Seq<char>, Seq<char>)>::empty(),
        }
    }
}

/// Whether a prepared body carries exactly the payload of a logical
/// operation.
pub open spec fn spec_body_matches(m: HttpMethod, b: PreparedBody) -> bool {
    match spec_method_body(m) {
        Option::None => b is Empty,
        Option::Some(Body::Json(j)) => b matches PreparedBody::Bytes(x) && x@ == j@,
        Option::Some(Body::Raw(raw)) => b matches PreparedBody::Bytes(x) && x@ == raw@,
        Option::Some(Body::Multipart(parts)) => b matches PreparedBody::Multipart(p)
            && p@.len() == parts@.len() && (forall|i: int|
            0 <= i < p@.len() ==> p@[i].contents@ == parts@[i].contents@ && p@[i].mime_str@
                == parts@[i].mime_str@ && p@[i].file_name@ == parts@[i].file_name@),
    }
}

/// Whether a header list is exactly an expected sequence of name/value
/// pairs, in order.
pub open spec fn spec_headers_match(
    hs: Seq<HeaderPair>,
    expect: Seq<(Seq<char>, Seq<char>)>,
) -> bool {
    hs.len() == expect.len() && (forall|i: int|
        0 <= i < hs.len() ==> hs[i].name@ == expect[i].0 && hs[i].value@ == expect[i].1)
}

/// The authentication and content-negotiation headers shared by every
/// authenticated request: the bearer credential and the accepted response
/// type.
pub open spec fn spec_auth_headers(token: Seq<char>) -> Seq<(Seq<char>, Seq<char>)> {
    seq![("Authorization"@, "Bearer "@ + token), ("Accept"@, "application/json"@)]
}

/// Turns the body of a logical operation into the transport body and the
/// body-describing headers.
pub(crate) fn prepared_body_parts(m: HttpMethod) -> (r: (PreparedBody, Vec<HeaderPair>))
    ensures
        spec_body_matches(m, r.0),
        spec_headers_match(r.1@, spec_content_headers(m)),
{
    let (carries, body) = match m {
        HttpMethod::Get => (false, Option::None),
        HttpMethod::Delete => (false, Option::None),
        HttpMethod::Post { body } => (true, body),
        HttpMethod::Patch { body } => (true, body),
        HttpMethod::Put { body } => (true, body),
    };
    let mut headers: Vec<HeaderPair> = Vec::new();
    let prepared = match body {
        Option::None => {
            if carries {
                headers.push(
                    HeaderPair {
                        name: String::from_str("Content-Length"),
                        value: String::from_str("0"),
                    },
                );
            }
            PreparedBody::Empty
        },
        Option::Some(Body::Json(j)) => {
            headers.push(
                HeaderPair {
                    name: String::from_str("Content-Type"),
                    value: String::from_str("application/json"),
                },
            );
            PreparedBody::Bytes(j)
        },
        Option::Some(Body::Raw(raw)) => PreparedBody::Bytes(raw),
        Option::Some(Body::Multipart(parts)) => PreparedBody::Multipart(parts),
    };
    (prepared, headers)
}

/// Whether an HTTP status is a success (2xx) status.
pub fn is_success_status(status: u16) -> (r: bool)
    ensures
        r <==> (200 <= status && status < 300),
{
    200 <= status && status < 300
}

/// A transport-level failure (connection, TLS, timeout) surfaces as a
/// request error carrying the transport's diagnostic text.
pub fn transport_failure(diagnostic: String) -> (r: Error)
    ensures
        r == Error::ClientError(ClientError::RequestError(diagnostic)),
{
    Error::ClientError(ClientError::RequestError(diagnostic))
}

/// A failed decode of a successful response surfaces as a request error
/// that embeds both the decode diagnostic and a rendering of the raw
/// response.
pub fn decode_failure(diagnostic: &str, rendered_response: &str) -> (r: Error)
    ensures
        r matches Error::ClientError(e) && e matches ClientError::RequestError(d) && d@
            == diagnostic@ + ": "@ + rendered_response@,
{
    Error::ClientError(
        ClientError::RequestError(text::concat3(diagnostic, ": ", rendered_response)),
    )
}

/// The outcome of a non-2xx response: a body that decodes as the backend's
/// structured error shape is surfaced verbatim, and a body that does not
/// surfaces the decode diagnostic as a serialization error.
pub fn backend_failure(decoded: Result<crate::errors::BackendError, String>) -> (r: Error)
    ensures
        match decoded {
            Result::Ok(b) => r == Error::BackendError(b),
            Result::Err(d) => r == Error::ClientError(ClientError::SerializationError(d)),
        },
{
    match decoded {
        Result::Ok(b) => Error::BackendError(b),
        Result::Err(d) => Error::ClientError(ClientError::SerializationError(d)),
    }
}

} // verus!
