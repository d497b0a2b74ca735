//! The build step that request builders share: each required field must have been
//! set, and a field that was not set is reported by a message of the builder's own.

use vstd::prelude::*;

verus! {

/// The value of a required builder field, or the builder's message when the field
/// was not set
pub fn require<T>(field: Option<T>, message: &str) -> (r: Result<T, String>)
    ensures
        match field {
            Some(v) => r == Ok::<T, String>(v),
            None => r is Err && r->Err_0@ == message@,
        },
{
    match field {
        Some(v) => Ok(v),
        None => Err(message.to_string()),
    }
}

} // verus!
