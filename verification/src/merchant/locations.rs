//! Merchant locations: the payload shapes and the request descriptions of
//! the endpoints.

use vstd::prelude::*;
use crate::client::{Body, Environment, HttpMethod, RevolutEndpoint};
use crate::text;

verus! {

/// A location creation or update payload.
#[derive(Clone, Debug, PartialEq, Eq)]
pub struct LocationRequest {
    pub name: String,
    pub type_: LocationType,
    pub details: LocationDetails,
}

/// The kind of a location.
#[derive(Clone, Copy, Debug, PartialEq, Eq, Structural)]
pub enum LocationType {
    Online,
}

/// The details of a location.
#[derive(Clone, Debug, PartialEq, Eq)]
pub struct LocationDetails {
    pub domain: String,
}

/// A location as the backend reports it.
#[derive(Clone, Debug, PartialEq, Eq)]
pub struct Location {
    pub id: String,
    pub name: String,
    pub type_: String,
    pub details: LocationDetails,
}

/// The location creation request with its already JSON-encoded payload.
pub fn create<E: Environment>(env: &E, location: Vec<u8>) -> (r: (HttpMethod, RevolutEndpoint))
    requires
        env.spec_supports_unversioned(),
    ensures
        r.0 matches HttpMethod::Post { body: b } && (b matches Option::Some(inner) && (
        inner matches Body::Json(j) && j@ == location@)),
        r.1.0@ == env.spec_unversioned_uri("/locations"@),
{
    (HttpMethod::Post { body: Option::Some(Body::Json(location)) }, env.unversioned_uri("/locations"))
}

/// The location-list request.
pub fn list<E: Environment>(env: &E) -> (r: (HttpMethod, RevolutEndpoint))
    requires
        env.spec_supports_unversioned(),
    ensures
        r.0 is Get,
        r.1.0@ == env.spec_unversioned_uri("/locations"@),
{
    (HttpMethod::Get, env.unversioned_uri("/locations"))
}

/// The single-location request.
pub fn retrieve<E: Environment>(env: &E, location_id: &str) -> (r: (HttpMethod, RevolutEndpoint))
    requires
        env.spec_supports_unversioned(),
    ensures
        r.0 is Get,
        r.1.0@ == env.spec_unversioned_uri("/locations/"@ + location_id@),
{
    let path = text::concat2("/locations/", location_id);
    (HttpMethod::Get, env.unversioned_uri(path.as_str()))
}

/// The location update request with its already JSON-encoded payload.
pub fn update<E: Environment>(env: &E, location_id: &str, location: Vec<u8>) -> (r: (
    HttpMethod,
    RevolutEndpoint,
))
    requires
        env.spec_supports_unversioned(),
    ensures
        r.0 matches HttpMethod::Patch { body: b } && (b matches Option::Some(inner) && (
        inner matches Body::Json(j) && j@ == location@)),
        r.1.0@ == env.spec_unversioned_uri("/locations/"@ + location_id@),
{
    let path = text::concat2("/locations/", location_id);
    (
        HttpMethod::Patch { body: Option::Some(Body::Json(location)) },
        env.unversioned_uri(path.as_str()),
    )
}

/// The location deletion request.
pub fn delete<E: Environment>(env: &E, location_id: &str) -> (r: (HttpMethod, RevolutEndpoint))
    requires
        env.spec_supports_unversioned(),
    ensures
        r.0 is Delete,
        r.1.0@ == env.spec_unversioned_uri("/locations/"@ + location_id@),
{
    let path = text::concat2("/locations/", location_id);
    (HttpMethod::Delete, env.unversioned_uri(path.as_str()))
}

} // verus!
