//! The handlers of the service: what each one answers, and how long the sync
//! takes to store a manuscript.

use vstd::prelude::*;

verus! {

/// How long storing a manuscript takes, in milliseconds.
pub const DB_LATENCY_MILLIS: u64 = 50;

/// The body of every health answer.
pub const HEALTH_BODY: &'static str = "OK";

/// The status that every sync answer reports.
pub const SYNCED: &'static str = "synced";

/// What stands in place of the trace identifier in every sync answer.
pub const TRACE_ID_PLACEHOLDER: &'static str = "TODO-extract-trace-id";

/// A request to sync a manuscript.
#[derive(Debug, PartialEq, Eq)]
pub struct ManuscriptPayload {
    /// The project the manuscript belongs to.
    pub project_id: String,
    /// The manuscript's text.
    pub content: String,
}

/// A `ManuscriptPayload` as plain text values.
pub ghost struct ManuscriptPayloadView {
    pub project_id: Seq<char>,
    pub content: Seq<char>,
}

impl View for ManuscriptPayload {
    type V = ManuscriptPayloadView;

    open spec fn view(&self) -> ManuscriptPayloadView {
        ManuscriptPayloadView { project_id: self.project_id@, content: self.content@ }
    }
}

impl Clone for ManuscriptPayload {
    fn clone(&self) -> (copy: Self)
        ensures
            copy@ == self@,
    {
        ManuscriptPayload { project_id: self.project_id.clone(), content: self.content.clone() }
    }
}

/// The answer to a sync request.
#[derive(Debug, PartialEq, Eq)]
pub struct SyncResponse {
    /// How the sync ended.
    pub status: String,
    /// The identifier of the trace the request was handled under.
    pub trace_id: String,
}

/// A `SyncResponse` as plain text values.
pub ghost struct SyncResponseView {
    pub status: Seq<char>,
    pub trace_id: Seq<char>,
}

impl View for SyncResponse {
    type V = SyncResponseView;

    open spec fn view(&self) -> SyncResponseView {
        SyncResponseView { status: self.status@, trace_id: self.trace_id@ }
    }
}

impl Clone for SyncResponse {
    fn clone(&self) -> (copy: Self)
        ensures
            copy@ == self@,
    {
        SyncResponse { status: self.status.clone(), trace_id: self.trace_id.clone() }
    }
}

/// What the sync handler does with a request: it lets `delay_millis` pass,
/// then answers with `response`.
#[derive(Debug, PartialEq, Eq)]
pub struct SyncPlan {
    /// The time to let pass before the answer, in milliseconds.
    pub delay_millis: u64,
    /// The answer.
    pub response: SyncResponse,
}

impl Clone for SyncPlan {
    fn clone(&self) -> (copy: Self)
        ensures
            copy.delay_millis == self.delay_millis,
            copy.response@ == self.response@,
    {
        SyncPlan { delay_millis: self.delay_millis, response: self.response.clone() }
    }
}

/// The one answer that a sync gives.
pub open spec fn synced_response() -> SyncResponseView {
    SyncResponseView { status: SYNCED@, trace_id: TRACE_ID_PLACEHOLDER@ }
}

/// Answers a health probe. The answer is the same for every probe.
pub fn health_check() -> (body: &'static str)
    ensures
        body@ == HEALTH_BODY@,
{
    HEALTH_BODY
}

/// The time that storing the manuscript of project `id` takes, in
/// milliseconds. Nothing is stored: the time is the same for every project, and
/// the caller lets it pass.
pub fn mock_db_call(id: &str) -> (millis: u64)
    ensures
        millis == DB_LATENCY_MILLIS,
{
    DB_LATENCY_MILLIS
}

/// Handles a sync request: the manuscript is stored, which takes its time, and
/// the answer reports it synced. The answer is the same for every payload.
pub fn sync_manuscript(payload: ManuscriptPayload) -> (plan: SyncPlan)
    ensures
        plan.delay_millis == DB_LATENCY_MILLIS,
        plan.response@ == synced_response(),
{
    let delay_millis: u64 = mock_db_call(payload.project_id.as_str());
    SyncPlan {
        delay_millis,
        response: SyncResponse {
            status: SYNCED.to_owned(),
            trace_id: TRACE_ID_PLACEHOLDER.to_owned(),
        },
    }
}

} // verus!
