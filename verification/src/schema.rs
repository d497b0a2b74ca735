//! JSON Schema construction for function parameters

/// Builder of JSON Schema values
pub mod builder;
