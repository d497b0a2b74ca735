//! # `OpenAI` Fine-tuning API Models
//!
//! Fine-tuning jobs: their status and the parameters of their listings.

use vstd::prelude::*;
use crate::text::{decimal, opt_chars, pairs_view, push_opt, u64_to_string};

verus! {

broadcast use vstd::string::group_string_axioms;

/// Status of a fine-tuning job
#[derive(Debug, Clone, Copy, PartialEq, Eq, Structural)]
pub enum FineTuningJobStatus {
    /// The training files are being validated
    ValidatingFiles,
    /// The job waits to run
    Queued,
    /// The job is running
    Running,
    /// The job finished successfully
    Succeeded,
    /// The job failed
    Failed,
    /// The job was cancelled
    Cancelled,
}

/// Whether a job in this status has ended
pub open spec fn status_is_terminal(s: FineTuningJobStatus) -> bool {
    s is Succeeded || s is Failed || s is Cancelled
}

/// Whether a job in this status is still in progress
pub open spec fn status_is_active(s: FineTuningJobStatus) -> bool {
    s is ValidatingFiles || s is Queued || s is Running
}

impl FineTuningJobStatus {
    /// Whether the job has ended (succeeded, failed or cancelled)
    pub fn is_terminal(&self) -> (r: bool)
        ensures
            r == status_is_terminal(*self),
    {
        match self {
            FineTuningJobStatus::Succeeded | FineTuningJobStatus::Failed
            | FineTuningJobStatus::Cancelled => true,
            _ => false,
        }
    }

    /// Whether the job is in progress (validating files, queued or running)
    pub fn is_active(&self) -> (r: bool)
        ensures
            r == status_is_active(*self),
    {
        match self {
            FineTuningJobStatus::ValidatingFiles | FineTuningJobStatus::Queued
            | FineTuningJobStatus::Running => true,
            _ => false,
        }
    }
}

/// Every job status is either terminal or active, never both
pub proof fn lemma_status_terminal_xor_active(s: FineTuningJobStatus)
    ensures
        status_is_terminal(s) != status_is_active(s),
{
}

/// Error information of a failed job
#[derive(Debug, Clone)]
pub struct FineTuningError {
    /// Error code
    pub code: String,
    /// Error message
    pub message: String,
    /// The parameter that was invalid
    pub param: Option<String>,
}

/// Response to cancelling a job
#[derive(Debug, Clone)]
pub struct CancelFineTuningJobResponse {
    /// The job's identifier
    pub id: String,
    /// The object type, always "fine_tuning.job"
    pub object: String,
    /// The job's status
    pub status: FineTuningJobStatus,
}

/// The query of a paged listing: after, then limit, each only when set
pub open spec fn page_query(after: Option<String>, limit: Option<u32>) -> Seq<(Seq<char>, Seq<char>)> {
    let q1 = push_opt(Seq::empty(), "after"@, opt_chars(after));
    push_opt(
        q1,
        "limit"@,
        match limit {
            Some(l) => Some(decimal(l as nat)),
            None => None,
        },
    )
}

fn page_query_params(after: &Option<String>, limit: Option<u32>) -> (r: Vec<(String, String)>)
    ensures
        pairs_view(r@) == page_query(*after, limit),
{
    let mut params: Vec<(String, String)> = Vec::new();
    if let Some(a) = after {
        params.push((String::from_str("after"), a.clone()));
    }
    if let Some(l) = limit {
        params.push((String::from_str("limit"), u64_to_string(l as u64)));
    }
    proof {
        assert(pairs_view(params@) =~= page_query(*after, limit));
    }
    params
}

/// Parameters for listing fine-tuning jobs
#[derive(Debug, Clone)]
pub struct ListFineTuningJobsParams {
    /// Identifier of the last item of the previous page
    pub after: Option<String>,
    /// Number of items to retrieve
    pub limit: Option<u32>,
}

impl Default for ListFineTuningJobsParams {
    fn default() -> (r: Self)
        ensures
            r.after is None,
            r.limit is None,
    {
        ListFineTuningJobsParams { after: None, limit: None }
    }
}

impl ListFineTuningJobsParams {
    /// Parameters with nothing set
    pub fn new() -> (r: Self)
        ensures
            r.after is None,
            r.limit is None,
    {
        ListFineTuningJobsParams::default()
    }

    /// Set the cursor for pagination
    pub fn after(self, after: &str) -> (r: Self)
        ensures
            r.after is Some && r.after.unwrap()@ == after@,
            r.limit == self.limit,
    {
        ListFineTuningJobsParams { after: Some(after.to_string()), ..self }
    }

    /// Set the number of items to return
    pub fn limit(self, limit: u32) -> (r: Self)
        ensures
            r.after == self.after,
            r.limit == Some(limit),
    {
        ListFineTuningJobsParams { limit: Some(limit), ..self }
    }

    /// The query parameters: after, then limit, each only when set
    pub fn to_query_params(&self) -> (r: Vec<(String, String)>)
        ensures
            pairs_view(r@) == page_query(self.after, self.limit),
    {
        page_query_params(&self.after, self.limit)
    }
}

/// Parameters for listing fine-tuning job events
#[derive(Debug, Clone)]
pub struct ListFineTuningJobEventsParams {
    /// Identifier of the last item of the previous page
    pub after: Option<String>,
    /// Number of items to retrieve
    pub limit: Option<u32>,
}

impl Default for ListFineTuningJobEventsParams {
    fn default() -> (r: Self)
        ensures
            r.after is None,
            r.limit is None,
    {
        ListFineTuningJobEventsParams { after: None, limit: None }
    }
}

impl ListFineTuningJobEventsParams {
    /// Parameters with nothing set
    pub fn new() -> (r: Self)
        ensures
            r.after is None,
            r.limit is None,
    {
        ListFineTuningJobEventsParams::default()
    }

    /// Set the cursor for pagination
    pub fn after(self, after: &str) -> (r: Self)
        ensures
            r.after is Some && r.after.unwrap()@ == after@,
            r.limit == self.limit,
    {
        ListFineTuningJobEventsParams { after: Some(after.to_string()), ..self }
    }

    /// Set the number of items to return
    pub fn limit(self, limit: u32) -> (r: Self)
        ensures
            r.after == self.after,
            r.limit == Some(limit),
    {
        ListFineTuningJobEventsParams { limit: Some(limit), ..self }
    }

    /// The query parameters: after, then limit, each only when set
    pub fn to_query_params(&self) -> (r: Vec<(String, String)>)
        ensures
            pairs_view(r@) == page_query(self.after, self.limit),
    {
        page_query_params(&self.after, self.limit)
    }
}

/// Parameters for listing fine-tuning job checkpoints
#[derive(Debug, Clone)]
pub struct ListFineTuningJobCheckpointsParams {
    /// Identifier of the last item of the previous page
    pub after: Option<String>,
    /// Number of items to retrieve
    pub limit: Option<u32>,
}

impl Default for ListFineTuningJobCheckpointsParams {
    fn default() -> (r: Self)
        ensures
            r.after is None,
            r.limit is None,
    {
        ListFineTuningJobCheckpointsParams { after: None, limit: None }
    }
}

impl ListFineTuningJobCheckpointsParams {
    /// Parameters with nothing set
    pub fn new() -> (r: Self)
        ensures
            r.after is None,
            r.limit is None,
    {
        ListFineTuningJobCheckpointsParams::default()
    }

    /// Set the cursor for pagination
    pub fn after(self, after: &str) -> (r: Self)
        ensures
            r.after is Some && r.after.unwrap()@ == after@,
            r.limit == self.limit,
    {
        ListFineTuningJobCheckpointsParams { after: Some(after.to_string()), ..self }
    }

    /// Set the number of items to return
    pub fn limit(self, limit: u32) -> (r: Self)
        ensures
            r.after == self.after,
            r.limit == Some(limit),
    {
        ListFineTuningJobCheckpointsParams { limit: Some(limit), ..self }
    }

    /// The query parameters: after, then limit, each only when set
    pub fn to_query_params(&self) -> (r: Vec<(String, String)>)
        ensures
            pairs_view(r@) == page_query(self.after, self.limit),
    {
        page_query_params(&self.after, self.limit)
    }
}

} // verus!
