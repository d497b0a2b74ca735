//! Skills API endpoints

use vstd::prelude::*;

verus! {

/// Base skills endpoint
pub const BASE: &'static str = "/v1/skills";

/// Get specific skill by ID
pub fn by_id(id: &str) -> (r: String)
    ensures
        r@ == BASE@ + "/"@ + id@,
{
    let mut r = String::from_str(BASE);
    r.append("/");
    r.append(id);
    r
}

/// Skill content endpoint
pub fn content(skill_id: &str) -> (r: String)
    ensures
        r@ == BASE@ + "/"@ + skill_id@ + "/content"@,
{
    let mut r = String::from_str(BASE);
    r.append("/");
    r.append(skill_id);
    r.append("/content");
    r
}

/// Skill versions endpoint
pub fn versions(skill_id: &str) -> (r: String)
    ensures
        r@ == BASE@ + "/"@ + skill_id@ + "/versions"@,
{
    let mut r = String::from_str(BASE);
    r.append("/");
    r.append(skill_id);
    r.append("/versions");
    r
}

/// Specific skill version by ID
pub fn version_by_id(skill_id: &str, version_id: &str) -> (r: String)
    ensures
        r@ == BASE@ + "/"@ + skill_id@ + "/versions/"@ + version_id@,
{
    let mut r = String::from_str(BASE);
    r.append("/");
    r.append(skill_id);
    r.append("/versions/");
    r.append(version_id);
    r
}

/// Skill version content endpoint
pub fn version_content(skill_id: &str, version_id: &str) -> (r: String)
    ensures
        r@ == BASE@ + "/"@ + skill_id@ + "/versions/"@ + version_id@ + "/content"@,
{
    let mut r = String::from_str(BASE);
    r.append("/");
    r.append(skill_id);
    r.append("/versions/");
    r.append(version_id);
    r.append("/content");
    r
}

} // verus!
