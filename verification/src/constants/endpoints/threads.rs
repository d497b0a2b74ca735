//! Threads API endpoints

use vstd::prelude::*;

verus! {

/// Base threads endpoint
pub const BASE: &'static str = "/v1/threads";

/// Get specific thread by ID
pub fn by_id(id: &str) -> (r: String)
    ensures
        r@ == BASE@ + "/"@ + id@,
{
    let mut r = String::from_str(BASE);
    r.append("/");
    r.append(id);
    r
}

/// Thread messages endpoint
pub fn messages(thread_id: &str) -> (r: String)
    ensures
        r@ == BASE@ + "/"@ + thread_id@ + "/messages"@,
{
    let mut r = String::from_str(BASE);
    r.append("/");
    r.append(thread_id);
    r.append("/messages");
    r
}

/// Specific message in thread
pub fn message_by_id(thread_id: &str, message_id: &str) -> (r: String)
    ensures
        r@ == BASE@ + "/"@ + thread_id@ + "/messages/"@ + message_id@,
{
    let mut r = String::from_str(BASE);
    r.append("/");
    r.append(thread_id);
    r.append("/messages/");
    r.append(message_id);
    r
}

/// Thread message files endpoint
pub fn message_files(thread_id: &str, message_id: &str) -> (r: String)
    ensures
        r@ == BASE@ + "/"@ + thread_id@ + "/messages/"@ + message_id@ + "/files"@,
{
    let mut r = String::from_str(BASE);
    r.append("/");
    r.append(thread_id);
    r.append("/messages/");
    r.append(message_id);
    r.append("/files");
    r
}

/// Specific message file by ID
pub fn message_file_by_id(thread_id: &str, message_id: &str, file_id: &str) -> (r: String)
    ensures
        r@ == BASE@ + "/"@ + thread_id@ + "/messages/"@ + message_id@ + "/files/"@ + file_id@,
{
    let mut r = String::from_str(BASE);
    r.append("/");
    r.append(thread_id);
    r.append("/messages/");
    r.append(message_id);
    r.append("/files/");
    r.append(file_id);
    r
}

/// Thread runs endpoint
pub fn runs(thread_id: &str) -> (r: String)
    ensures
        r@ == BASE@ + "/"@ + thread_id@ + "/runs"@,
{
    let mut r = String::from_str(BASE);
    r.append("/");
    r.append(thread_id);
    r.append("/runs");
    r
}

/// Specific run in thread
pub fn run_by_id(thread_id: &str, run_id: &str) -> (r: String)
    ensures
        r@ == BASE@ + "/"@ + thread_id@ + "/runs/"@ + run_id@,
{
    let mut r = String::from_str(BASE);
    r.append("/");
    r.append(thread_id);
    r.append("/runs/");
    r.append(run_id);
    r
}

/// Submit tool outputs to run
pub fn submit_tool_outputs(thread_id: &str, run_id: &str) -> (r: String)
    ensures
        r@ == BASE@ + "/"@ + thread_id@ + "/runs/"@ + run_id@ + "/submit_tool_outputs"@,
{
    let mut r = String::from_str(BASE);
    r.append("/");
    r.append(thread_id);
    r.append("/runs/");
    r.append(run_id);
    r.append("/submit_tool_outputs");
    r
}

/// Cancel run
pub fn cancel_run(thread_id: &str, run_id: &str) -> (r: String)
    ensures
        r@ == BASE@ + "/"@ + thread_id@ + "/runs/"@ + run_id@ + "/cancel"@,
{
    let mut r = String::from_str(BASE);
    r.append("/");
    r.append(thread_id);
    r.append("/runs/");
    r.append(run_id);
    r.append("/cancel");
    r
}

/// Run steps endpoint
pub fn run_steps(thread_id: &str, run_id: &str) -> (r: String)
    ensures
        r@ == BASE@ + "/"@ + thread_id@ + "/runs/"@ + run_id@ + "/steps"@,
{
    let mut r = String::from_str(BASE);
    r.append("/");
    r.append(thread_id);
    r.append("/runs/");
    r.append(run_id);
    r.append("/steps");
    r
}

/// Specific run step by ID
pub fn run_step_by_id(thread_id: &str, run_id: &str, step_id: &str) -> (r: String)
    ensures
        r@ == BASE@ + "/"@ + thread_id@ + "/runs/"@ + run_id@ + "/steps/"@ + step_id@,
{
    let mut r = String::from_str(BASE);
    r.append("/");
    r.append(thread_id);
    r.append("/runs/");
    r.append(run_id);
    r.append("/steps/");
    r.append(step_id);
    r
}

} // verus!
