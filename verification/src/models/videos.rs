//! Videos (Sora) API models: list parameters

use vstd::prelude::*;

verus! {

broadcast use vstd::string::group_string_axioms;

/// Parameters for listing videos
#[derive(Debug, Clone)]
pub struct ListVideosParams {
    /// Maximum number of videos to return
    pub limit: Option<u32>,
    /// Sort order ("asc" or "desc")
    pub order: Option<String>,
    /// Cursor: list videos after this ID
    pub after: Option<String>,
    /// Cursor: list videos before this ID
    pub before: Option<String>,
}

impl Default for ListVideosParams {
    fn default() -> (r: Self)
        ensures
            r.limit is None,
            r.order is None,
            r.after is None,
            r.before is None,
    {
        ListVideosParams { limit: None, order: None, after: None, before: None }
    }
}

impl ListVideosParams {
    /// Create empty parameters
    pub fn new() -> (r: Self)
        ensures
            r.limit is None,
            r.order is None,
            r.after is None,
            r.before is None,
    {
        ListVideosParams::default()
    }

    /// Set the maximum number of videos
    pub fn with_limit(self, limit: u32) -> (r: Self)
        ensures
            r == (ListVideosParams { limit: Some(limit), ..self }),
    {
        ListVideosParams { limit: Some(limit), ..self }
    }

    /// Set the sort order
    pub fn with_order(self, order: &str) -> (r: Self)
        ensures
            r == (ListVideosParams { order: r.order, ..self }),
            r.order.unwrap()@ == order@ && r.order is Some,
    {
        ListVideosParams { order: Some(order.to_string()), ..self }
    }

    /// Set the cursor after which to list
    pub fn with_after(self, after: &str) -> (r: Self)
        ensures
            r == (ListVideosParams { after: r.after, ..self }),
            r.after.unwrap()@ == after@ && r.after is Some,
    {
        ListVideosParams { after: Some(after.to_string()), ..self }
    }

    /// Set the cursor before which to list
    pub fn with_before(self, before: &str) -> (r: Self)
        ensures
            r == (ListVideosParams { before: r.before, ..self }),
            r.before.unwrap()@ == before@ && r.before is Some,
    {
        ListVideosParams { before: Some(before.to_string()), ..self }
    }
}

} // verus!
