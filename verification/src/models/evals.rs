//! # Evals API Models
//!
//! Evaluations, their runs and output items

use vstd::prelude::*;
use crate::json::JsonValue;

verus! {

/// An eval object representing an evaluation configuration
#[derive(Debug, Clone)]
pub struct Eval {
    /// Unique identifier for the eval
    pub id: String,
    /// The object type (e.g., "eval")
    pub object: String,
    /// The Unix timestamp (in seconds) when the eval was created
    pub created_at: i64,
    /// The name of the eval
    pub name: String,
    /// A description of the eval
    pub description: Option<String>,
    /// Metadata key-value pairs attached to the eval
    pub metadata: Option<Vec<(String, String)>>,
    /// Configuration for the data source used by the eval
    pub data_source_config: JsonValue,
    /// The testing criteria for the eval
    pub testing_criteria: Vec<JsonValue>,
}

/// Request to create a new eval
#[derive(Debug, Clone)]
pub struct CreateEvalRequest {
    /// The name of the eval
    pub name: String,
    /// A description of the eval
    pub description: Option<String>,
    /// Metadata key-value pairs to attach to the eval
    pub metadata: Option<Vec<(String, String)>>,
    /// Configuration for the data source used by the eval
    pub data_source_config: JsonValue,
    /// The testing criteria for the eval
    pub testing_criteria: Vec<JsonValue>,
}

/// Request to update an existing eval
#[derive(Debug, Clone)]
pub struct UpdateEvalRequest {
    /// Updated name for the eval
    pub name: Option<String>,
    /// Updated description for the eval
    pub description: Option<String>,
    /// Updated metadata key-value pairs
    pub metadata: Option<Vec<(String, String)>>,
}

/// Response from deleting an eval
#[derive(Debug, Clone)]
pub struct EvalDeleteResponse {
    /// The identifier of the deleted eval
    pub id: String,
    /// The object type
    pub object: String,
    /// Whether the eval was successfully deleted
    pub deleted: bool,
}

/// Paginated list of evals
#[derive(Debug, Clone)]
pub struct EvalList {
    /// The object type, which is "list"
    pub object: String,
    /// The list of eval objects
    pub data: Vec<Eval>,
    /// Cursor for the first item in the list (for pagination)
    pub first_id: Option<String>,
    /// Cursor for the last item in the list (for pagination)
    pub last_id: Option<String>,
    /// Whether there are more results available
    pub has_more: bool,
}

/// An eval run representing a single execution of an eval
#[derive(Debug, Clone)]
pub struct EvalRun {
    /// Unique identifier for the eval run
    pub id: String,
    /// The object type (e.g., "eval.run")
    pub object: String,
    /// The identifier of the parent eval
    pub eval_id: String,
    /// The Unix timestamp (in seconds) when the run was created
    pub created_at: i64,
    /// The status of the eval run (e.g., "queued", "running", "completed", "failed", "cancelled")
    pub status: String,
    /// The model used for the eval run
    pub model: String,
    /// The name of the eval run
    pub name: Option<String>,
    /// Metadata key-value pairs attached to the eval run
    pub metadata: Option<Vec<(String, String)>>,
    /// Counts of results by status
    pub result_counts: Option<JsonValue>,
    /// Per-model token usage statistics
    pub per_model_usage: Option<Vec<JsonValue>>,
    /// Per-testing-criteria result breakdowns
    pub per_testing_criteria_results: Option<Vec<JsonValue>>,
    /// URL for the eval run report
    pub report_url: Option<String>,
    /// Error details if the run failed
    pub error: Option<JsonValue>,
}

/// Request to create a new eval run
#[derive(Debug, Clone)]
pub struct CreateEvalRunRequest {
    /// The model to use for the eval run
    pub model: String,
    /// The name of the eval run
    pub name: Option<String>,
    /// Metadata key-value pairs to attach to the eval run
    pub metadata: Option<Vec<(String, String)>>,
    /// The data source configuration for the eval run
    pub data_source: JsonValue,
}

/// Paginated list of eval runs
#[derive(Debug, Clone)]
pub struct EvalRunList {
    /// The object type, which is "list"
    pub object: String,
    /// The list of eval run objects
    pub data: Vec<EvalRun>,
    /// Cursor for the first item in the list (for pagination)
    pub first_id: Option<String>,
    /// Cursor for the last item in the list (for pagination)
    pub last_id: Option<String>,
    /// Whether there are more results available
    pub has_more: bool,
}

/// A single output item from an eval run
#[derive(Debug, Clone)]
pub struct EvalRunOutputItem {
    /// Unique identifier for the output item
    pub id: String,
    /// The object type (e.g., "eval.run.output_item")
    pub object: String,
    /// The identifier of the parent eval
    pub eval_id: String,
    /// The identifier of the parent eval run
    pub run_id: String,
    /// The Unix timestamp (in seconds) when the output item was created
    pub created_at: i64,
    /// The status of the output item
    pub status: String,
    /// The identifier of the data source item that produced this output
    pub datasource_item_id: Option<String>,
    /// The evaluation results for this output item
    pub results: Vec<JsonValue>,
    /// The sample data (input/output) for this output item
    pub sample: Option<JsonValue>,
}

/// Paginated list of eval run output items
#[derive(Debug, Clone)]
pub struct EvalRunOutputItemList {
    /// The object type, which is "list"
    pub object: String,
    /// The list of output item objects
    pub data: Vec<EvalRunOutputItem>,
    /// Cursor for the first item in the list (for pagination)
    pub first_id: Option<String>,
    /// Cursor for the last item in the list (for pagination)
    pub last_id: Option<String>,
    /// Whether there are more results available
    pub has_more: bool,
}

/// Parameters for listing evals
#[derive(Debug, Clone)]
pub struct ListEvalsParams {
    /// Maximum number of evals to return
    pub limit: Option<u32>,
    /// Sort order for the results ("asc" or "desc")
    pub order: Option<String>,
    /// Pagination cursor - list evals after this ID
    pub after: Option<String>,
    /// Pagination cursor - list evals before this ID
    pub before: Option<String>,
}

impl Default for ListEvalsParams {
    fn default() -> (r: Self)
        ensures
            r.limit is None,
            r.order is None,
            r.after is None,
            r.before is None,
    {
        ListEvalsParams { limit: None, order: None, after: None, before: None }
    }
}

/// Parameters for listing eval runs
#[derive(Debug, Clone)]
pub struct ListEvalRunsParams {
    /// Maximum number of runs to return
    pub limit: Option<u32>,
    /// Sort order for the results ("asc" or "desc")
    pub order: Option<String>,
    /// Pagination cursor - list runs after this ID
    pub after: Option<String>,
    /// Pagination cursor - list runs before this ID
    pub before: Option<String>,
}

impl Default for ListEvalRunsParams {
    fn default() -> (r: Self)
        ensures
            r.limit is None,
            r.order is None,
            r.after is None,
            r.before is None,
    {
        ListEvalRunsParams { limit: None, order: None, after: None, before: None }
    }
}

/// Parameters for listing eval run output items
#[derive(Debug, Clone)]
pub struct ListEvalRunOutputItemsParams {
    /// Maximum number of output items to return
    pub limit: Option<u32>,
    /// Sort order for the results ("asc" or "desc")
    pub order: Option<String>,
    /// Pagination cursor - list output items after this ID
    pub after: Option<String>,
    /// Pagination cursor - list output items before this ID
    pub before: Option<String>,
    /// Filter output items by status
    pub status: Option<String>,
}

impl Default for ListEvalRunOutputItemsParams {
    fn default() -> (r: Self)
        ensures
            r.limit is None,
            r.order is None,
            r.after is None,
            r.before is None,
            r.status is None,
    {
        ListEvalRunOutputItemsParams { limit: None, order: None, after: None, before: None, status: None }
    }
}

} // verus!
