//! Evals API endpoints

use vstd::prelude::*;

verus! {

/// Base evals endpoint
pub const BASE: &'static str = "/v1/evals";

/// Get specific eval by ID
pub fn by_id(id: &str) -> (r: String)
    ensures
        r@ == BASE@ + "/"@ + id@,
{
    let mut r = String::from_str(BASE);
    r.append("/");
    r.append(id);
    r
}

/// Eval runs endpoint
pub fn runs(eval_id: &str) -> (r: String)
    ensures
        r@ == BASE@ + "/"@ + eval_id@ + "/runs"@,
{
    let mut r = String::from_str(BASE);
    r.append("/");
    r.append(eval_id);
    r.append("/runs");
    r
}

/// Specific eval run by ID
pub fn run_by_id(eval_id: &str, run_id: &str) -> (r: String)
    ensures
        r@ == BASE@ + "/"@ + eval_id@ + "/runs/"@ + run_id@,
{
    let mut r = String::from_str(BASE);
    r.append("/");
    r.append(eval_id);
    r.append("/runs/");
    r.append(run_id);
    r
}

/// Cancel eval run
pub fn cancel_run(eval_id: &str, run_id: &str) -> (r: String)
    ensures
        r@ == BASE@ + "/"@ + eval_id@ + "/runs/"@ + run_id@ + "/cancel"@,
{
    let mut r = String::from_str(BASE);
    r.append("/");
    r.append(eval_id);
    r.append("/runs/");
    r.append(run_id);
    r.append("/cancel");
    r
}

/// Eval run output items endpoint
pub fn output_items(eval_id: &str, run_id: &str) -> (r: String)
    ensures
        r@ == BASE@ + "/"@ + eval_id@ + "/runs/"@ + run_id@ + "/output_items"@,
{
    let mut r = String::from_str(BASE);
    r.append("/");
    r.append(eval_id);
    r.append("/runs/");
    r.append(run_id);
    r.append("/output_items");
    r
}

/// Specific eval run output item by ID
pub fn output_item_by_id(eval_id: &str, run_id: &str, item_id: &str) -> (r: String)
    ensures
        r@ == BASE@ + "/"@ + eval_id@ + "/runs/"@ + run_id@ + "/output_items/"@ + item_id@,
{
    let mut r = String::from_str(BASE);
    r.append("/");
    r.append(eval_id);
    r.append("/runs/");
    r.append(run_id);
    r.append("/output_items/");
    r.append(item_id);
    r
}

} // verus!
