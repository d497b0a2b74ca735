//! Conversations API endpoints

use vstd::prelude::*;

verus! {

/// Base conversations endpoint
pub const BASE: &'static str = "/v1/conversations";

/// Get specific conversation by ID
pub fn by_id(id: &str) -> (r: String)
    ensures
        r@ == BASE@ + "/"@ + id@,
{
    let mut r = String::from_str(BASE);
    r.append("/");
    r.append(id);
    r
}

/// Conversation items endpoint
pub fn items(conversation_id: &str) -> (r: String)
    ensures
        r@ == BASE@ + "/"@ + conversation_id@ + "/items"@,
{
    let mut r = String::from_str(BASE);
    r.append("/");
    r.append(conversation_id);
    r.append("/items");
    r
}

/// Specific conversation item by ID
pub fn item_by_id(conversation_id: &str, item_id: &str) -> (r: String)
    ensures
        r@ == BASE@ + "/"@ + conversation_id@ + "/items/"@ + item_id@,
{
    let mut r = String::from_str(BASE);
    r.append("/");
    r.append(conversation_id);
    r.append("/items/");
    r.append(item_id);
    r
}

} // verus!
