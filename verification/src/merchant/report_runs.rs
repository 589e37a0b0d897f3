//! Merchant report runs: the report descriptions, the run status and the
//! request descriptions of the endpoints.

use vstd::prelude::*;
use crate::client::{Body, Environment, HttpMethod, RevolutEndpoint};
use crate::text;

verus! {

/// The kinds of report a run can produce.
#[derive(Clone, Debug, PartialEq, Eq)]
pub enum ReportRunRequest {
    SettlementReport(SettlementReport),
    CustomReport(CustomReport),
    PayoutStatementReport(PayoutStatementReport),
    IcppFeeBreakdownReport,
}

/// A settlement report description.
#[derive(Clone, Debug, PartialEq, Eq)]
pub struct SettlementReport {
    pub filter: SettlementReportFilter,
    pub format: String,
    pub type_: String,
    pub options: Option<SettlementReportOptions>,
}

/// The filter of a settlement report.
#[derive(Clone, Debug, PartialEq, Eq)]
pub struct SettlementReportFilter {
    pub from: Option<String>,
    pub to: String,
    pub entity_types: Option<String>,
    pub entity_states: Option<String>,
    pub currency: Option<String>,
    pub location_id: Option<String>,
}

/// The rendering options of a settlement report.
#[derive(Clone, Debug, PartialEq, Eq)]
pub struct SettlementReportOptions {
    pub timezone: Option<String>,
    pub columns: Option<String>,
}

/// A custom report description.
#[derive(Clone, Debug, PartialEq, Eq)]
pub struct CustomReport {
    pub filter: CustomReportFilter,
    pub format: String,
    pub type_: String,
    pub options: Option<CustomReportOptions>,
}

/// The filter of a custom report.
#[derive(Clone, Debug, PartialEq, Eq)]
pub struct CustomReportFilter {
    pub from: Option<String>,
    pub to: String,
    pub entity_types: Option<String>,
    pub entity_states: Option<String>,
    pub currency: Option<String>,
    pub location_id: Option<String>,
}

/// The rendering options of a custom report.
#[derive(Clone, Debug, PartialEq, Eq)]
pub struct CustomReportOptions {
    pub timezone: Option<String>,
    pub columns: Option<String>,
}

/// A payout statement report description.
#[derive(Clone, Debug, PartialEq, Eq)]
pub struct PayoutStatementReport {
    pub filter: PayoutStatementFilter,
    pub format: String,
    pub type_: String,
    pub options: Option<PayoutStatementReportOptions>,
}

/// The filter of a payout statement report.
#[derive(Clone, Debug, PartialEq, Eq)]
pub struct PayoutStatementFilter {
    pub payout_id: String,
}

/// The rendering options of a payout statement report.
#[derive(Clone, Debug, PartialEq, Eq)]
pub struct PayoutStatementReportOptions {
    pub timezone: Option<String>,
    pub columns: Option<String>,
}

/// A report run as the backend reports it.
#[derive(Clone, Debug, PartialEq, Eq)]
pub struct ReportRun {
    pub report_run_id: String,
    pub status: ReportRunStatus,
    pub file_url: Option<String>,
}

/// The status of a report run.
#[derive(Clone, Copy, Debug, PartialEq, Eq, Structural)]
pub enum ReportRunStatus {
    Processing,
    Completed,
    Failed,
    Expired,
}

/// The report-run creation request with its already JSON-encoded payload
/// (the path is the backend's own).
pub fn create<E: Environment>(env: &E, report_run: Vec<u8>) -> (r: (HttpMethod, RevolutEndpoint))
    requires
        env.spec_supports_unversioned(),
    ensures
        r.0 matches HttpMethod::Post { body: b } && (b matches Option::Some(inner) && (
        inner matches Body::Json(j) && j@ == report_run@)),
        r.1.0@ == env.spec_unversioned_uri("/orders"@),
{
    (HttpMethod::Post { body: Option::Some(Body::Json(report_run)) }, env.unversioned_uri("/orders"))
}

/// The single report-run request.
pub fn retrieve<E: Environment>(env: &E, report_run_id: &str) -> (r: (HttpMethod, RevolutEndpoint))
    requires
        env.spec_supports_unversioned(),
    ensures
        r.0 is Get,
        r.1.0@ == env.spec_unversioned_uri("/report-runs/"@ + report_run_id@),
{
    let path = text::concat2("/report-runs/", report_run_id);
    (HttpMethod::Get, env.unversioned_uri(path.as_str()))
}

/// The report-file download request; the answer is the raw file bytes.
pub fn download<E: Environment>(env: &E, report_run_id: &str) -> (r: (HttpMethod, RevolutEndpoint))
    requires
        env.spec_supports_unversioned(),
    ensures
        r.0 is Get,
        r.1.0@ == env.spec_unversioned_uri("/report-runs/"@ + report_run_id@ + "/file"@),
{
    let path = text::concat3("/report-runs/", report_run_id, "/file");
    (HttpMethod::Get, env.unversioned_uri(path.as_str()))
}

} // verus!
