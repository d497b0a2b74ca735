//! Fine-tuning API endpoints

use vstd::prelude::*;

verus! {

/// Base fine-tuning jobs endpoint
pub const BASE: &'static str = "/v1/fine_tuning/jobs";

/// Get specific fine-tuning job by ID
pub fn by_id(id: &str) -> (r: String)
    ensures
        r@ == BASE@ + "/"@ + id@,
{
    let mut r = String::from_str(BASE);
    r.append("/");
    r.append(id);
    r
}

/// Cancel fine-tuning job
pub fn cancel(id: &str) -> (r: String)
    ensures
        r@ == BASE@ + "/"@ + id@ + "/cancel"@,
{
    let mut r = String::from_str(BASE);
    r.append("/");
    r.append(id);
    r.append("/cancel");
    r
}

/// Fine-tuning job events endpoint
pub fn events(id: &str) -> (r: String)
    ensures
        r@ == BASE@ + "/"@ + id@ + "/events"@,
{
    let mut r = String::from_str(BASE);
    r.append("/");
    r.append(id);
    r.append("/events");
    r
}

/// Fine-tuning job checkpoints endpoint
pub fn checkpoints(id: &str) -> (r: String)
    ensures
        r@ == BASE@ + "/"@ + id@ + "/checkpoints"@,
{
    let mut r = String::from_str(BASE);
    r.append("/");
    r.append(id);
    r.append("/checkpoints");
    r
}

} // verus!
