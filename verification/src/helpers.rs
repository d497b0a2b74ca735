//! Helpers shared by the file operations

/// The errors of file operations
pub mod file_operations;
