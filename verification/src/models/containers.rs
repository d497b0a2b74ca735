//! # Container Models
//!
//! Containers for code execution: their status, files, and execution results

use vstd::prelude::*;
use crate::json::JsonValue;

verus! {

/// Container status
#[derive(Debug, Clone, Copy, PartialEq, Eq, Structural)]
pub enum ContainerStatus {
    /// Container is being created
    Creating,
    /// Container is ready for use
    Active,
    /// Container is idle (no recent activity)
    Idle,
    /// Container is expired
    Expired,
    /// Container is being deleted
    Deleting,
    /// Container has an error
    Error,
}

/// File in a container
#[derive(Debug, Clone)]
pub struct ContainerFile {
    /// File ID
    pub id: String,
    /// File object type
    pub object: String,
    /// File name
    pub filename: String,
    /// File size in bytes
    pub size: u64,
    /// File MIME type
    pub mime_type: Option<String>,
    /// Creation timestamp
    pub created_at: u64,
    /// Last modified timestamp
    pub modified_at: Option<u64>,
    /// File path in container
    pub path: String,
    /// Whether file is readable
    pub readable: bool,
    /// Whether file is writable
    pub writable: bool,
    /// Whether file is executable
    pub executable: bool,
}

/// List of files in a container
#[derive(Debug, Clone)]
pub struct ContainerFileList {
    /// List object type
    pub object: String,
    /// List of files
    pub data: Vec<ContainerFile>,
    /// Total number of files
    pub total: u32,
}

/// Code execution request
#[derive(Debug, Clone)]
pub struct CodeExecutionRequest {
    /// Python code to execute
    pub code: String,
    /// Execution timeout in milliseconds
    pub timeout_ms: Option<u32>,
    /// Whether to include output in response
    pub include_output: Option<bool>,
}

/// Code execution result
#[derive(Debug, Clone)]
pub struct CodeExecutionResult {
    /// Execution ID
    pub id: String,
    /// Execution status
    pub status: ExecutionStatus,
    /// Standard output
    pub stdout: Option<String>,
    /// Standard error
    pub stderr: Option<String>,
    /// Exit code
    pub exit_code: Option<i32>,
    /// Execution time in milliseconds
    pub execution_time_ms: Option<u32>,
    /// Files created during execution
    pub created_files: Vec<ContainerFile>,
    /// Files modified during execution
    pub modified_files: Vec<ContainerFile>,
    /// Execution error if any
    pub error: Option<String>,
    /// Memory used during execution in MB
    pub memory_used_mb: Option<u32>,
    /// Citations for code output
    pub citations: Vec<CodeCitation>,
}

/// Execution status
#[derive(Debug, Clone, Copy, PartialEq, Eq, Structural)]
pub enum ExecutionStatus {
    /// Code is being executed
    Running,
    /// Execution completed successfully
    Success,
    /// Execution failed with error
    Failed,
    /// Execution timed out
    Timeout,
    /// Execution was cancelled
    Cancelled,
}

/// Code citation for tracking sources
#[derive(Debug, Clone)]
pub struct CodeCitation {
    /// Citation type (e.g., "file", "url", "library")
    pub citation_type: String,
    /// Source of the citation
    pub source: String,
    /// Line numbers referenced (if applicable)
    pub lines: Option<Vec<u32>>,
    /// Additional metadata
    pub metadata: Vec<(String, JsonValue)>,
}

/// Parameters for listing containers
#[derive(Debug, Clone)]
pub struct ListContainersParams {
    /// Maximum number of containers to return
    pub limit: Option<u32>,
    /// Starting container ID for pagination
    pub after: Option<String>,
    /// Ending container ID for pagination
    pub before: Option<String>,
    /// Filter by status
    pub status: Option<ContainerStatus>,
    /// Order by creation date ("asc" or "desc")
    pub order: Option<String>,
}

/// Container mode for Code Interpreter
#[derive(Debug, Clone, Copy, PartialEq, Eq, Structural)]
pub enum ContainerMode {
    /// Automatically create and manage containers
    Auto,
    /// Use explicitly created containers
    Explicit,
}

impl Default for ContainerMode {
    fn default() -> (r: Self)
        ensures
            r == ContainerMode::Auto,
    {
        ContainerMode::Auto
    }
}

} // verus!
