//! The error taxonomy surfaced by every operation of the library.

use vstd::prelude::*;

verus! {

/// Unified error type: configuration failures, client-side failures and the
/// backend's own structured error payload, passed through verbatim.
#[derive(Clone, Debug, PartialEq, Eq)]
pub enum Error {
    ClientBuilderError(ClientBuilderError),
    ClientError(ClientError),
    BackendError(BackendError),
}

/// Failures while assembling credentials or constructing a client.
#[derive(Clone, Debug, PartialEq, Eq)]
pub enum ClientBuilderError {
    MissingEnvironmentVariable(String),
    CannotInstantiateClient(String),
}

/// Failures of an individual operation issued through a built client.
#[derive(Clone, Debug, PartialEq, Eq)]
pub enum ClientError {
    CannotLogIn(String),
    RequestError(String),
    SerializationError(String),
    GenericError(String),
}

/// The structured error body a non-successful HTTP response may carry.
/// Every field is optional: any subset may be present depending on the
/// backend failure mode.
#[derive(Clone, Debug, PartialEq, Eq)]
pub struct BackendError {
    pub code: Option<String>,
    pub error_code: Option<String>,
    pub error_id: Option<String>,
    pub errors: Option<Vec<ErrorItem>>,
    pub id: Option<String>,
    pub message: Option<String>,
    pub timestamp: Option<u64>,
}

/// One entry of the `errors` list of a [`BackendError`].
#[derive(Clone, Debug, PartialEq, Eq)]
pub struct ErrorItem {
    pub error_code: String,
    pub message: String,
}

/// The result type of every operation of the library.
pub type ApiResult<T> = Result<T, Error>;

impl From<ClientBuilderError> for Error {
    fn from(error: ClientBuilderError) -> (r: Self) {
        Error::ClientBuilderError(error)
    }
}

impl vstd::std_specs::convert::FromSpecImpl<ClientBuilderError> for Error {
    open spec fn obeys_from_spec() -> bool {
        true
    }

    open spec fn from_spec(error: ClientBuilderError) -> Self {
        Error::ClientBuilderError(error)
    }
}

} // verus!
