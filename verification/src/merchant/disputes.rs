//! Merchant disputes: the payload shapes, the multipart evidence upload
//! and the request descriptions of the endpoints, which exist only in the
//! production environment.

use vstd::prelude::*;
use vstd::slice::slice_to_vec;
use crate::client::{
    Body, Environment, HttpMethod, Part, ProductionEnvironment, RevolutEndpoint,
};
use crate::text;

verus! {

/// The lifecycle state of a dispute.
#[derive(Clone, Copy, Debug, PartialEq, Eq, Structural)]
pub enum DisputeState {
    NeedsResponse,
    UnderReview,
    Won,
    Lost,
}

/// The finer-grained stage of a dispute.
#[derive(Clone, Copy, Debug, PartialEq, Eq, Structural)]
pub enum DisputeSubstate {
    Arbitration,
    LostAccepted,
    LostArbitration,
    LostExpired,
    LostPreArbitration,
    New,
    PreArbitration,
    Representment,
    WonArbitration,
    WonPreArbitration,
    WonRepresentment,
    WonReversal,
}

/// The kind of payment method a disputed payment used.
#[derive(Clone, Copy, Debug, PartialEq, Eq, Structural)]
pub enum PaymentMethodType {
    ApplePay,
    AppleTapToPay,
    Card,
    GooglePay,
    RevolutPayAccount,
    RevolutPayCard,
}

/// A freshly uploaded piece of evidence.
#[derive(Clone, Debug, PartialEq, Eq)]
pub struct Evidence {
    pub id: String,
}

/// An evidence upload: the file name and the typed document bytes.
pub struct EvidenceRequest<'a> {
    pub file_name: String,
    pub data: EvidenceType<'a>,
}

/// The document kinds the backend accepts as evidence.
pub enum EvidenceType<'a> {
    PDF(&'a [u8]),
    PNG(&'a [u8]),
    JPEG(&'a [u8]),
}

impl<'a> EvidenceType<'a> {
    /// The document bytes.
    pub open spec fn spec_bytes(&self) -> Seq<u8> {
        match self {
            EvidenceType::PDF(b) => b@,
            EvidenceType::PNG(b) => b@,
            EvidenceType::JPEG(b) => b@,
        }
    }

    /// The media type announced for the document.
    pub open spec fn spec_mime(&self) -> Seq<char> {
        match self {
            EvidenceType::PDF(_) => "application/pdf"@,
            EvidenceType::PNG(_) => "image/png"@,
            EvidenceType::JPEG(_) => "image/jpeg"@,
        }
    }
}

/// A dispute challenge payload.
#[derive(Clone, Debug, PartialEq, Eq)]
pub struct ChallengeDisputeRequest {
    pub reason: String,
    pub comment: Option<String>,
    pub evidences: Vec<String>,
}

/// The dispute-list request; disputes exist only in production.
pub fn list(env: &ProductionEnvironment<crate::MerchantClient>) -> (r: (
    HttpMethod,
    RevolutEndpoint,
))
    ensures
        r.0 is Get,
        r.1.0@ == env.spec_unversioned_uri("/disputes"@),
{
    (HttpMethod::Get, env.unversioned_uri("/disputes"))
}

/// The single-dispute request.
pub fn retrieve(env: &ProductionEnvironment<crate::MerchantClient>, dispute_id: &str) -> (r: (
    HttpMethod,
    RevolutEndpoint,
))
    ensures
        r.0 is Get,
        r.1.0@ == env.spec_unversioned_uri("/disputes/"@ + dispute_id@),
{
    let path = text::concat2("/disputes/", dispute_id);
    (HttpMethod::Get, env.unversioned_uri(path.as_str()))
}

/// The dispute acceptance request: a bodyless `Post`.
pub fn accept(env: &ProductionEnvironment<crate::MerchantClient>, dispute_id: &str) -> (r: (
    HttpMethod,
    RevolutEndpoint,
))
    ensures
        r.0 matches HttpMethod::Post { body: b } && b is None,
        r.1.0@ == env.spec_unversioned_uri("/disputes/"@ + dispute_id@ + "/accept"@),
{
    let path = text::concat3("/disputes/", dispute_id, "/accept");
    (HttpMethod::Post { body: Option::None }, env.unversioned_uri(path.as_str()))
}

/// The evidence upload request: a multipart form with a single part
/// holding the document bytes, its media type and the file name.
pub fn upload_evidence<'a>(
    env: &ProductionEnvironment<crate::MerchantClient>,
    dispute_id: &str,
    evidence: EvidenceRequest<'a>,
) -> (r: (HttpMethod, RevolutEndpoint))
    ensures
        r.0 matches HttpMethod::Post { body: b } && (b matches Option::Some(inner) && (
        inner matches Body::Multipart(parts) && parts@.len() == 1 && parts@[0].contents@
            == evidence.data.spec_bytes() && parts@[0].mime_str@ == evidence.data.spec_mime()
            && parts@[0].file_name@ == evidence.file_name@)),
        r.1.0@ == env.spec_unversioned_uri("/disputes/"@ + dispute_id@ + "/evidences"@),
{
    let (evidence_data, evidence_content_type): (&[u8], &str) = match &evidence.data {
        EvidenceType::JPEG(bytes) => (*bytes, "image/jpeg"),
        EvidenceType::PDF(bytes) => (*bytes, "application/pdf"),
        EvidenceType::PNG(bytes) => (*bytes, "image/png"),
    };
    let mut parts: Vec<Part> = Vec::new();
    parts.push(
        Part {
            contents: slice_to_vec(evidence_data),
            mime_str: evidence_content_type.to_owned(),
            file_name: evidence.file_name,
        },
    );
    let path = text::concat3("/disputes/", dispute_id, "/evidences");
    (
        HttpMethod::Post { body: Option::Some(Body::Multipart(parts)) },
        env.unversioned_uri(path.as_str()),
    )
}

/// The dispute challenge request with its already JSON-encoded payload.
pub fn challenge(
    env: &ProductionEnvironment<crate::MerchantClient>,
    dispute_id: &str,
    challenge_dispute: Vec<u8>,
) -> (r: (HttpMethod, RevolutEndpoint))
    ensures
        r.0 matches HttpMethod::Post { body: b } && (b matches Option::Some(inner) && (
        inner matches Body::Json(j) && j@ == challenge_dispute@)),
        r.1.0@ == env.spec_unversioned_uri("/disputes/"@ + dispute_id@ + "/challenge"@),
{
    let path = text::concat3("/disputes/", dispute_id, "/challenge");
    (
        HttpMethod::Post { body: Option::Some(Body::Json(challenge_dispute)) },
        env.unversioned_uri(path.as_str()),
    )
}

} // verus!
