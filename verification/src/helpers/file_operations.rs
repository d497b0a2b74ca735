//! The error a failed file operation is reported with

use vstd::prelude::*;
use crate::error::OpenAIError;

verus! {

broadcast use vstd::string::group_string_axioms;

/// The error of a failed file operation: which operation, on which path, and what
/// the system reported
pub fn create_file_error(path: &str, operation: &str, error: &str) -> (r: OpenAIError)
    ensures
        r is FileError && r->FileError_0@ == "Failed to "@ + operation@ + " file "@ + path@
            + ": "@ + error@,
{
    let mut m = String::from_str("Failed to ");
    m.append(operation);
    m.append(" file ");
    m.append(path);
    m.append(": ");
    m.append(error);
    OpenAIError::FileError(m)
}

} // verus!
