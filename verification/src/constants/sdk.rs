//! SDK information

use vstd::prelude::*;

verus! {

/// SDK name
pub const NAME: &'static str = "openai_rust_sdk";

/// SDK version (the version of this package)
pub const VERSION: &'static str = "0.1.0";

/// User agent string for HTTP requests
pub const USER_AGENT: &'static str = "openai_rust_sdk/0.1.0";

} // verus!
