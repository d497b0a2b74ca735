//! # Common Builder Patterns
//!
//! Builder traits shared by the request builders.

use vstd::prelude::*;

verus! {

/// A builder that produces a `T`
pub trait Builder<T> {
    /// Build the final value
    fn build(self) -> T;
}

/// A builder with an image or item count
pub trait WithN<T>: Builder<T> {
    /// Set the count
    fn n(self, n: u32) -> Self;
}

/// A builder with a response format
pub trait WithFormat<T, F>: Builder<T> {
    /// Set the format
    fn format(self, format: F) -> Self;
}

/// A builder with a size
pub trait WithSize<T, S>: Builder<T> {
    /// Set the size
    fn size(self, size: S) -> Self;
}

/// A builder with a user identifier
pub trait WithUser<T>: Builder<T> {
    /// Set the user identifier
    fn user(self, user: &str) -> Self;
}

/// A builder with a quality setting
pub trait WithQuality<T, Q>: Builder<T> {
    /// Set the quality
    fn quality(self, quality: Q) -> Self;
}

} // verus!
