//! Builders of API objects

/// The build step shared by request builders
pub mod macros;
/// Builder for function definitions
pub mod function_builder;
