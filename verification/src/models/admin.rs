//! # Administration API Models
//!
//! Data structures of the Administration APIs: audit logs, invites, users,
//! projects, project users, service accounts, API keys, and usage.

use vstd::prelude::*;
use crate::json::JsonValue;

verus! {

/// Common pagination parameters for admin list endpoints.
#[derive(Debug, Clone)]
pub struct ListAdminParams {
    /// Maximum number of items to return.
    pub limit: Option<u32>,
    /// Cursor for pagination – return items after this ID.
    pub after: Option<String>,
    /// Cursor for pagination – return items before this ID.
    pub before: Option<String>,
}

impl Default for ListAdminParams {
    fn default() -> (r: Self)
        ensures
            r.limit is None,
            r.after is None,
            r.before is None,
    {
        ListAdminParams { limit: None, after: None, before: None }
    }
}

/// A single audit log entry.
#[derive(Debug, Clone)]
pub struct AuditLog {
    /// Unique identifier for the audit log event.
    pub id: String,
    /// The event type.
    pub type_field: String,
    /// The ISO-8601 timestamp at which the event became effective.
    pub effective_at: String,
    /// The project associated with the event, if applicable.
    pub project: Option<JsonValue>,
    /// The actor who performed the action.
    pub actor: Option<JsonValue>,
    /// The API key associated with the event, if applicable.
    pub api_key: Option<JsonValue>,
    /// Additional details about the event.
    pub details: Option<JsonValue>,
}

/// Paginated list of audit log entries.
#[derive(Debug, Clone)]
pub struct AuditLogList {
    /// The object type, always `"list"`.
    pub object: String,
    /// The list of audit log entries.
    pub data: Vec<AuditLog>,
    /// The ID of the first item in this page.
    pub first_id: Option<String>,
    /// The ID of the last item in this page.
    pub last_id: Option<String>,
    /// Whether there are more results available after this page.
    pub has_more: bool,
}

/// Query parameters for listing audit logs.
#[derive(Debug, Clone)]
pub struct ListAuditLogsParams {
    /// Maximum number of audit log entries to return.
    pub limit: Option<u32>,
    /// Cursor for pagination – return entries after this ID.
    pub after: Option<String>,
    /// Cursor for pagination – return entries before this ID.
    pub before: Option<String>,
    /// Filter by effective timestamp (e.g., `{"gte": "...", "lte": "..."}`).
    pub effective_at: Option<JsonValue>,
    /// Filter by project IDs.
    pub project_ids: Option<Vec<String>>,
    /// Filter by event types.
    pub event_types: Option<Vec<String>>,
    /// Filter by actor IDs.
    pub actor_ids: Option<Vec<String>>,
    /// Filter by actor email addresses.
    pub actor_emails: Option<Vec<String>>,
}

impl Default for ListAuditLogsParams {
    fn default() -> (r: Self)
        ensures
            r.limit is None,
            r.after is None,
            r.before is None,
            r.effective_at is None,
            r.project_ids is None,
            r.event_types is None,
            r.actor_ids is None,
            r.actor_emails is None,
    {
        ListAuditLogsParams {
            limit: None,
            after: None,
            before: None,
            effective_at: None,
            project_ids: None,
            event_types: None,
            actor_ids: None,
            actor_emails: None,
        }
    }
}

/// An organization invite.
#[derive(Debug, Clone)]
pub struct Invite {
    /// The object type, always `"organization.invite"`.
    pub object: String,
    /// Unique identifier for the invite.
    pub id: String,
    /// The email address the invite was sent to.
    pub email: String,
    /// The role assigned to the invited user.
    pub role: String,
    /// The status of the invite (e.g., `"pending"`, `"accepted"`, `"expired"`).
    pub status: String,
    /// Unix timestamp (in seconds) when the invite was created.
    pub invited_at: u64,
    /// Unix timestamp (in seconds) when the invite expires.
    pub expires_at: u64,
    /// Unix timestamp (in seconds) when the invite was accepted, if applicable.
    pub accepted_at: Option<u64>,
}

/// Paginated list of invites.
#[derive(Debug, Clone)]
pub struct InviteList {
    /// The object type, always `"list"`.
    pub object: String,
    /// The list of invites.
    pub data: Vec<Invite>,
    /// The ID of the first item in this page.
    pub first_id: Option<String>,
    /// The ID of the last item in this page.
    pub last_id: Option<String>,
    /// Whether there are more results available after this page.
    pub has_more: bool,
}

/// Request body for creating a new invite.
#[derive(Debug, Clone)]
pub struct CreateInviteRequest {
    /// The email address to invite.
    pub email: String,
    /// The role to assign to the invited user (e.g., `"owner"`, `"reader"`).
    pub role: String,
}

/// Response returned when an invite is deleted.
#[derive(Debug, Clone)]
pub struct InviteDeleteResponse {
    /// The object type, always `"organization.invite.deleted"`.
    pub object: String,
    /// The ID of the deleted invite.
    pub id: String,
    /// Whether the invite was successfully deleted.
    pub deleted: bool,
}

/// An organization user (member).
#[derive(Debug, Clone)]
pub struct User {
    /// The object type, always `"organization.user"`.
    pub object: String,
    /// Unique identifier for the user.
    pub id: String,
    /// The user's display name.
    pub name: String,
    /// The user's email address.
    pub email: String,
    /// The user's role in the organization.
    pub role: String,
    /// Unix timestamp (in seconds) when the user was added.
    pub added_at: u64,
}

/// Paginated list of users.
#[derive(Debug, Clone)]
pub struct UserList {
    /// The object type, always `"list"`.
    pub object: String,
    /// The list of users.
    pub data: Vec<User>,
    /// The ID of the first item in this page.
    pub first_id: Option<String>,
    /// The ID of the last item in this page.
    pub last_id: Option<String>,
    /// Whether there are more results available after this page.
    pub has_more: bool,
}

/// Request body for updating a user's role.
#[derive(Debug, Clone)]
pub struct UpdateUserRequest {
    /// The new role for the user.
    pub role: String,
}

/// Response returned when a user is deleted from the organization.
#[derive(Debug, Clone)]
pub struct UserDeleteResponse {
    /// The object type, always `"organization.user.deleted"`.
    pub object: String,
    /// The ID of the deleted user.
    pub id: String,
    /// Whether the user was successfully deleted.
    pub deleted: bool,
}

/// An organization project.
#[derive(Debug, Clone)]
pub struct Project {
    /// The object type, always `"organization.project"`.
    pub object: String,
    /// Unique identifier for the project.
    pub id: String,
    /// The project name.
    pub name: String,
    /// Unix timestamp (in seconds) when the project was created.
    pub created_at: u64,
    /// Unix timestamp (in seconds) when the project was archived, if applicable.
    pub archived_at: Option<u64>,
    /// The project status (e.g., `"active"`, `"archived"`).
    pub status: String,
}

/// Paginated list of projects.
#[derive(Debug, Clone)]
pub struct ProjectList {
    /// The object type, always `"list"`.
    pub object: String,
    /// The list of projects.
    pub data: Vec<Project>,
    /// The ID of the first item in this page.
    pub first_id: Option<String>,
    /// The ID of the last item in this page.
    pub last_id: Option<String>,
    /// Whether there are more results available after this page.
    pub has_more: bool,
}

/// Request body for creating a new project.
#[derive(Debug, Clone)]
pub struct CreateProjectRequest {
    /// The name of the project to create.
    pub name: String,
}

/// Request body for updating a project.
#[derive(Debug, Clone)]
pub struct UpdateProjectRequest {
    /// The new name for the project.
    pub name: String,
}

/// A user within a project.
#[derive(Debug, Clone)]
pub struct ProjectUser {
    /// The object type, always `"organization.project.user"`.
    pub object: String,
    /// Unique identifier for the user.
    pub id: String,
    /// The user's display name.
    pub name: String,
    /// The user's email address.
    pub email: String,
    /// The user's role in the project.
    pub role: String,
    /// Unix timestamp (in seconds) when the user was added to the project.
    pub added_at: u64,
}

/// Paginated list of project users.
#[derive(Debug, Clone)]
pub struct ProjectUserList {
    /// The object type, always `"list"`.
    pub object: String,
    /// The list of project users.
    pub data: Vec<ProjectUser>,
    /// The ID of the first item in this page.
    pub first_id: Option<String>,
    /// The ID of the last item in this page.
    pub last_id: Option<String>,
    /// Whether there are more results available after this page.
    pub has_more: bool,
}

/// Request body for adding a user to a project.
#[derive(Debug, Clone)]
pub struct CreateProjectUserRequest {
    /// The ID of the user to add.
    pub user_id: String,
    /// The role to assign to the user in the project.
    pub role: String,
}

/// Request body for updating a project user's role.
#[derive(Debug, Clone)]
pub struct UpdateProjectUserRequest {
    /// The new role for the user in the project.
    pub role: String,
}

/// Response returned when a user is removed from a project.
#[derive(Debug, Clone)]
pub struct ProjectUserDeleteResponse {
    /// The object type, always `"organization.project.user.deleted"`.
    pub object: String,
    /// The ID of the removed user.
    pub id: String,
    /// Whether the user was successfully removed.
    pub deleted: bool,
}

/// A service account within a project.
#[derive(Debug, Clone)]
pub struct ProjectServiceAccount {
    /// The object type, always `"organization.project.service_account"`.
    pub object: String,
    /// Unique identifier for the service account.
    pub id: String,
    /// The service account name.
    pub name: String,
    /// The service account's role in the project.
    pub role: String,
    /// Unix timestamp (in seconds) when the service account was created.
    pub created_at: u64,
}

/// Paginated list of project service accounts.
#[derive(Debug, Clone)]
pub struct ProjectServiceAccountList {
    /// The object type, always `"list"`.
    pub object: String,
    /// The list of project service accounts.
    pub data: Vec<ProjectServiceAccount>,
    /// The ID of the first item in this page.
    pub first_id: Option<String>,
    /// The ID of the last item in this page.
    pub last_id: Option<String>,
    /// Whether there are more results available after this page.
    pub has_more: bool,
}

/// Request body for creating a new service account in a project.
#[derive(Debug, Clone)]
pub struct CreateProjectServiceAccountRequest {
    /// The name of the service account to create.
    pub name: String,
}

/// Response returned when a service account is created, including the API key.
#[derive(Debug, Clone)]
pub struct ProjectServiceAccountCreateResponse {
    /// The object type, always `"organization.project.service_account"`.
    pub object: String,
    /// Unique identifier for the newly created service account.
    pub id: String,
    /// The service account name.
    pub name: String,
    /// The role assigned to the service account.
    pub role: String,
    /// Unix timestamp (in seconds) when the service account was created.
    pub created_at: u64,
    /// The API key created for the service account (only returned at creation time).
    pub api_key: JsonValue,
}

/// Response returned when a service account is deleted from a project.
#[derive(Debug, Clone)]
pub struct ProjectServiceAccountDeleteResponse {
    /// The object type, always `"organization.project.service_account.deleted"`.
    pub object: String,
    /// The ID of the deleted service account.
    pub id: String,
    /// Whether the service account was successfully deleted.
    pub deleted: bool,
}

/// An API key within a project.
#[derive(Debug, Clone)]
pub struct ProjectApiKey {
    /// The object type, always `"organization.project.api_key"`.
    pub object: String,
    /// The redacted value of the API key.
    pub redacted_value: String,
    /// The name of the API key, if set.
    pub name: Option<String>,
    /// Unix timestamp (in seconds) when the API key was created.
    pub created_at: u64,
    /// Unique identifier for the API key.
    pub id: String,
    /// The owner of the API key (user or service account).
    pub owner: JsonValue,
}

/// Paginated list of project API keys.
#[derive(Debug, Clone)]
pub struct ProjectApiKeyList {
    /// The object type, always `"list"`.
    pub object: String,
    /// The list of project API keys.
    pub data: Vec<ProjectApiKey>,
    /// The ID of the first item in this page.
    pub first_id: Option<String>,
    /// The ID of the last item in this page.
    pub last_id: Option<String>,
    /// Whether there are more results available after this page.
    pub has_more: bool,
}

/// Response returned when an API key is deleted.
#[derive(Debug, Clone)]
pub struct ProjectApiKeyDeleteResponse {
    /// The object type, always `"organization.project.api_key.deleted"`.
    pub object: String,
    /// The ID of the deleted API key.
    pub id: String,
    /// Whether the API key was successfully deleted.
    pub deleted: bool,
}

/// A single time bucket of usage data.
#[derive(Debug, Clone)]
pub struct UsageBucket {
    /// The object type, always `"bucket"`.
    pub object: String,
    /// Unix timestamp (in seconds) for the start of the bucket.
    pub start_time: u64,
    /// Unix timestamp (in seconds) for the end of the bucket.
    pub end_time: u64,
    /// The usage results within this time bucket.
    pub results: Vec<JsonValue>,
}

/// Response from a usage query.
#[derive(Debug, Clone)]
pub struct UsageResponse {
    /// The object type, always `"page"`.
    pub object: String,
    /// The list of usage buckets.
    pub data: Vec<UsageBucket>,
    /// Whether there are more results available after this page.
    pub has_more: bool,
    /// The cursor for the next page, if available.
    pub next_page: Option<String>,
}

} // verus!
