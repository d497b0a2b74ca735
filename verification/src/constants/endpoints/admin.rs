//! Administration API endpoints

use vstd::prelude::*;

verus! {

/// Audit logs endpoint
pub const AUDIT_LOGS: &'static str = "/v1/organization/audit_logs";

/// Invites endpoint
pub const INVITES: &'static str = "/v1/organization/invites";

/// Users endpoint
pub const USERS: &'static str = "/v1/organization/users";

/// Projects endpoint
pub const PROJECTS: &'static str = "/v1/organization/projects";

/// Costs endpoint
pub const COSTS: &'static str = "/v1/organization/costs";

/// Get specific invite by ID
pub fn invite_by_id(id: &str) -> (r: String)
    ensures
        r@ == INVITES@ + "/"@ + id@,
{
    let mut r = String::from_str(INVITES);
    r.append("/");
    r.append(id);
    r
}

/// Get specific user by ID
pub fn user_by_id(id: &str) -> (r: String)
    ensures
        r@ == USERS@ + "/"@ + id@,
{
    let mut r = String::from_str(USERS);
    r.append("/");
    r.append(id);
    r
}

/// Get specific project by ID
pub fn project_by_id(id: &str) -> (r: String)
    ensures
        r@ == PROJECTS@ + "/"@ + id@,
{
    let mut r = String::from_str(PROJECTS);
    r.append("/");
    r.append(id);
    r
}

/// Archive project endpoint
pub fn archive_project(id: &str) -> (r: String)
    ensures
        r@ == PROJECTS@ + "/"@ + id@ + "/archive"@,
{
    let mut r = String::from_str(PROJECTS);
    r.append("/");
    r.append(id);
    r.append("/archive");
    r
}

/// Project users endpoint
pub fn project_users(project_id: &str) -> (r: String)
    ensures
        r@ == PROJECTS@ + "/"@ + project_id@ + "/users"@,
{
    let mut r = String::from_str(PROJECTS);
    r.append("/");
    r.append(project_id);
    r.append("/users");
    r
}

/// Specific project user by ID
pub fn project_user_by_id(project_id: &str, user_id: &str) -> (r: String)
    ensures
        r@ == PROJECTS@ + "/"@ + project_id@ + "/users/"@ + user_id@,
{
    let mut r = String::from_str(PROJECTS);
    r.append("/");
    r.append(project_id);
    r.append("/users/");
    r.append(user_id);
    r
}

/// Project service accounts endpoint
pub fn project_service_accounts(project_id: &str) -> (r: String)
    ensures
        r@ == PROJECTS@ + "/"@ + project_id@ + "/service_accounts"@,
{
    let mut r = String::from_str(PROJECTS);
    r.append("/");
    r.append(project_id);
    r.append("/service_accounts");
    r
}

/// Specific project service account by ID
pub fn project_service_account_by_id(project_id: &str, service_account_id: &str) -> (r: String)
    ensures
        r@ == PROJECTS@ + "/"@ + project_id@ + "/service_accounts/"@ + service_account_id@,
{
    let mut r = String::from_str(PROJECTS);
    r.append("/");
    r.append(project_id);
    r.append("/service_accounts/");
    r.append(service_account_id);
    r
}

/// Project API keys endpoint
pub fn project_api_keys(project_id: &str) -> (r: String)
    ensures
        r@ == PROJECTS@ + "/"@ + project_id@ + "/api_keys"@,
{
    let mut r = String::from_str(PROJECTS);
    r.append("/");
    r.append(project_id);
    r.append("/api_keys");
    r
}

/// Specific project API key by ID
pub fn project_api_key_by_id(project_id: &str, key_id: &str) -> (r: String)
    ensures
        r@ == PROJECTS@ + "/"@ + project_id@ + "/api_keys/"@ + key_id@,
{
    let mut r = String::from_str(PROJECTS);
    r.append("/");
    r.append(project_id);
    r.append("/api_keys/");
    r.append(key_id);
    r
}

/// Project rate limits endpoint
pub fn project_rate_limits(project_id: &str) -> (r: String)
    ensures
        r@ == PROJECTS@ + "/"@ + project_id@ + "/rate_limits"@,
{
    let mut r = String::from_str(PROJECTS);
    r.append("/");
    r.append(project_id);
    r.append("/rate_limits");
    r
}

/// Specific project rate limit by ID
pub fn project_rate_limit_by_id(project_id: &str, rate_limit_id: &str) -> (r: String)
    ensures
        r@ == PROJECTS@ + "/"@ + project_id@ + "/rate_limits/"@ + rate_limit_id@,
{
    let mut r = String::from_str(PROJECTS);
    r.append("/");
    r.append(project_id);
    r.append("/rate_limits/");
    r.append(rate_limit_id);
    r
}

/// Usage endpoint for a specific category
pub fn usage(category: &str) -> (r: String)
    ensures
        r@ == "/v1/organization/usage/"@ + category@,
{
    let mut r = String::from_str("/v1/organization/usage/");
    r.append(category);
    r
}

} // verus!
