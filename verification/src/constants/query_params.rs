//! Common query parameter names

use vstd::prelude::*;

verus! {

/// Limit parameter for pagination
pub const LIMIT: &'static str = "limit";

/// Order parameter for sorting
pub const ORDER: &'static str = "order";

/// After parameter for cursor pagination
pub const AFTER: &'static str = "after";

/// Before parameter for cursor pagination
pub const BEFORE: &'static str = "before";

/// Filter parameter
pub const FILTER: &'static str = "filter";

} // verus!
