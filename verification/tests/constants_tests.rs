//! Constants: API origin, header names, endpoint paths and SDK information.

use openai_rust_sdk::constants::{
    endpoints, sdk, API_VERSION_PREFIX, CONTENT_TYPE_JSON, OPENAI_API_BASE_URL,
    OPENAI_BETA_ASSISTANTS,
};

#[test]
fn test_constants_are_valid() {
    assert_eq!(OPENAI_API_BASE_URL, "https://api.openai.com");
    assert_eq!(API_VERSION_PREFIX, "/v1");
    assert_eq!(CONTENT_TYPE_JSON, "application/json");
    assert_eq!(OPENAI_BETA_ASSISTANTS, "assistants=v1");
}

#[test]
fn test_endpoint_construction() {
    check_assistants_endpoints();
    check_vector_stores_endpoints();
    check_threads_endpoints();
    check_files_endpoints();
    check_models_endpoints();
}

fn check_assistants_endpoints() {
    assert_eq!(endpoints::assistants::BASE, "/v1/assistants");
    assert_eq!(endpoints::assistants::by_id("test"), "/v1/assistants/test");
}

fn check_vector_stores_endpoints() {
    assert_eq!(endpoints::vector_stores::BASE, "/v1/vector_stores");
    assert_eq!(
        endpoints::vector_stores::by_id("vs-123"),
        "/v1/vector_stores/vs-123"
    );
    assert_eq!(
        endpoints::vector_stores::files("vs-123"),
        "/v1/vector_stores/vs-123/files"
    );
    assert_eq!(
        endpoints::vector_stores::file_by_id("vs-123", "file-456"),
        "/v1/vector_stores/vs-123/files/file-456"
    );
    assert_eq!(
        endpoints::vector_stores::file_batches("vs-123"),
        "/v1/vector_stores/vs-123/file_batches"
    );
    assert_eq!(
        endpoints::vector_stores::file_batch_by_id("vs-123", "batch-789"),
        "/v1/vector_stores/vs-123/file_batches/batch-789"
    );
    assert_eq!(
        endpoints::vector_stores::cancel_file_batch("vs-123", "batch-789"),
        "/v1/vector_stores/vs-123/file_batches/batch-789/cancel"
    );
    assert_eq!(
        endpoints::vector_stores::file_batch_files("vs-123", "batch-789"),
        "/v1/vector_stores/vs-123/file_batches/batch-789/files"
    );
}

fn check_threads_endpoints() {
    assert_eq!(endpoints::threads::BASE, "/v1/threads");
    assert_eq!(
        endpoints::threads::by_id("thread-123"),
        "/v1/threads/thread-123"
    );
    assert_eq!(
        endpoints::threads::messages("thread-123"),
        "/v1/threads/thread-123/messages"
    );
    assert_eq!(
        endpoints::threads::message_by_id("thread-123", "msg-456"),
        "/v1/threads/thread-123/messages/msg-456"
    );
    assert_eq!(
        endpoints::threads::message_files("thread-123", "msg-456"),
        "/v1/threads/thread-123/messages/msg-456/files"
    );
    assert_eq!(
        endpoints::threads::message_file_by_id("thread-123", "msg-456", "file-789"),
        "/v1/threads/thread-123/messages/msg-456/files/file-789"
    );
    assert_eq!(
        endpoints::threads::runs("thread-123"),
        "/v1/threads/thread-123/runs"
    );
    assert_eq!(
        endpoints::threads::run_by_id("thread-123", "run-456"),
        "/v1/threads/thread-123/runs/run-456"
    );
    assert_eq!(
        endpoints::threads::submit_tool_outputs("thread-123", "run-456"),
        "/v1/threads/thread-123/runs/run-456/submit_tool_outputs"
    );
    assert_eq!(
        endpoints::threads::cancel_run("thread-123", "run-456"),
        "/v1/threads/thread-123/runs/run-456/cancel"
    );
    assert_eq!(
        endpoints::threads::run_steps("thread-123", "run-456"),
        "/v1/threads/thread-123/runs/run-456/steps"
    );
    assert_eq!(
        endpoints::threads::run_step_by_id("thread-123", "run-456", "step-789"),
        "/v1/threads/thread-123/runs/run-456/steps/step-789"
    );
}

fn check_files_endpoints() {
    assert_eq!(endpoints::files::BASE, "/v1/files");
    assert_eq!(endpoints::files::by_id("file-123"), "/v1/files/file-123");
    assert_eq!(
        endpoints::files::content("file-123"),
        "/v1/files/file-123/content"
    );
}

fn check_models_endpoints() {
    assert_eq!(endpoints::models::BASE, "/v1/models");
    assert_eq!(endpoints::models::by_id("gpt-4"), "/v1/models/gpt-4");
}

#[test]
fn test_new_endpoint_constructions() {
    check_containers_endpoints();
    check_fine_tuning_endpoints();
    check_batches_endpoints();
    check_runs_endpoints();
}

fn check_containers_endpoints() {
    let container_id = "container-123";
    let file_id = "file-456";

    assert_eq!(endpoints::containers::BASE, "/v1/containers");
    assert_eq!(
        endpoints::containers::by_id(container_id),
        "/v1/containers/container-123"
    );
    assert_eq!(
        endpoints::containers::files(container_id),
        "/v1/containers/container-123/files"
    );
    assert_eq!(
        endpoints::containers::file_by_id(container_id, file_id),
        "/v1/containers/container-123/files/file-456"
    );
    assert_eq!(
        endpoints::containers::file_content(container_id, file_id),
        "/v1/containers/container-123/files/file-456/content"
    );
    assert_eq!(
        endpoints::containers::execute(container_id),
        "/v1/containers/container-123/execute"
    );
    assert_eq!(
        endpoints::containers::keep_alive(container_id),
        "/v1/containers/container-123/keep-alive"
    );
}

fn check_fine_tuning_endpoints() {
    let job_id = "ft-123";

    assert_eq!(endpoints::fine_tuning::BASE, "/v1/fine_tuning/jobs");
    assert_eq!(
        endpoints::fine_tuning::by_id(job_id),
        "/v1/fine_tuning/jobs/ft-123"
    );
    assert_eq!(
        endpoints::fine_tuning::cancel(job_id),
        "/v1/fine_tuning/jobs/ft-123/cancel"
    );
    assert_eq!(
        endpoints::fine_tuning::events(job_id),
        "/v1/fine_tuning/jobs/ft-123/events"
    );
    assert_eq!(
        endpoints::fine_tuning::checkpoints(job_id),
        "/v1/fine_tuning/jobs/ft-123/checkpoints"
    );
}

fn check_batches_endpoints() {
    let batch_id = "batch-123";

    assert_eq!(endpoints::batches::BASE, "/v1/batches");
    assert_eq!(endpoints::batches::by_id(batch_id), "/v1/batches/batch-123");
    assert_eq!(
        endpoints::batches::cancel(batch_id),
        "/v1/batches/batch-123/cancel"
    );
}

fn check_runs_endpoints() {
    assert_eq!(endpoints::runs::BASE, "/v1/threads/runs");
}

#[test]
fn test_new_api_endpoint_constructions() {
    check_uploads_endpoints();
    check_evals_endpoints();
    check_videos_endpoints();
    check_conversations_endpoints();
    check_skills_endpoints();
    check_admin_endpoints();
}

fn check_uploads_endpoints() {
    assert_eq!(endpoints::uploads::BASE, "/v1/uploads");
    assert_eq!(endpoints::uploads::by_id("up-123"), "/v1/uploads/up-123");
    assert_eq!(
        endpoints::uploads::parts("up-123"),
        "/v1/uploads/up-123/parts"
    );
    assert_eq!(
        endpoints::uploads::complete("up-123"),
        "/v1/uploads/up-123/complete"
    );
    assert_eq!(
        endpoints::uploads::cancel("up-123"),
        "/v1/uploads/up-123/cancel"
    );
}

fn check_evals_endpoints() {
    assert_eq!(endpoints::evals::BASE, "/v1/evals");
    assert_eq!(endpoints::evals::by_id("eval-1"), "/v1/evals/eval-1");
    assert_eq!(endpoints::evals::runs("eval-1"), "/v1/evals/eval-1/runs");
    assert_eq!(
        endpoints::evals::run_by_id("eval-1", "run-2"),
        "/v1/evals/eval-1/runs/run-2"
    );
    assert_eq!(
        endpoints::evals::cancel_run("eval-1", "run-2"),
        "/v1/evals/eval-1/runs/run-2/cancel"
    );
    assert_eq!(
        endpoints::evals::output_items("eval-1", "run-2"),
        "/v1/evals/eval-1/runs/run-2/output_items"
    );
    assert_eq!(
        endpoints::evals::output_item_by_id("eval-1", "run-2", "item-3"),
        "/v1/evals/eval-1/runs/run-2/output_items/item-3"
    );
}

fn check_videos_endpoints() {
    assert_eq!(endpoints::videos::BASE, "/v1/videos");
    assert_eq!(endpoints::videos::GENERATIONS, "/v1/videos/generations");
    assert_eq!(endpoints::videos::by_id("vid-1"), "/v1/videos/vid-1");
}

fn check_conversations_endpoints() {
    assert_eq!(endpoints::conversations::BASE, "/v1/conversations");
    assert_eq!(
        endpoints::conversations::by_id("conv-1"),
        "/v1/conversations/conv-1"
    );
    assert_eq!(
        endpoints::conversations::items("conv-1"),
        "/v1/conversations/conv-1/items"
    );
    assert_eq!(
        endpoints::conversations::item_by_id("conv-1", "item-2"),
        "/v1/conversations/conv-1/items/item-2"
    );
}

fn check_skills_endpoints() {
    assert_eq!(endpoints::skills::BASE, "/v1/skills");
    assert_eq!(endpoints::skills::by_id("sk-1"), "/v1/skills/sk-1");
    assert_eq!(
        endpoints::skills::content("sk-1"),
        "/v1/skills/sk-1/content"
    );
    assert_eq!(
        endpoints::skills::versions("sk-1"),
        "/v1/skills/sk-1/versions"
    );
    assert_eq!(
        endpoints::skills::version_by_id("sk-1", "ver-2"),
        "/v1/skills/sk-1/versions/ver-2"
    );
    assert_eq!(
        endpoints::skills::version_content("sk-1", "ver-2"),
        "/v1/skills/sk-1/versions/ver-2/content"
    );
}

fn check_admin_endpoints() {
    assert_eq!(endpoints::admin::AUDIT_LOGS, "/v1/organization/audit_logs");
    assert_eq!(endpoints::admin::INVITES, "/v1/organization/invites");
    assert_eq!(endpoints::admin::USERS, "/v1/organization/users");
    assert_eq!(endpoints::admin::PROJECTS, "/v1/organization/projects");
    assert_eq!(endpoints::admin::COSTS, "/v1/organization/costs");
    assert_eq!(
        endpoints::admin::invite_by_id("inv-1"),
        "/v1/organization/invites/inv-1"
    );
    assert_eq!(
        endpoints::admin::user_by_id("u-1"),
        "/v1/organization/users/u-1"
    );
    assert_eq!(
        endpoints::admin::project_by_id("p-1"),
        "/v1/organization/projects/p-1"
    );
    assert_eq!(
        endpoints::admin::archive_project("p-1"),
        "/v1/organization/projects/p-1/archive"
    );
    assert_eq!(
        endpoints::admin::project_users("p-1"),
        "/v1/organization/projects/p-1/users"
    );
    assert_eq!(
        endpoints::admin::project_user_by_id("p-1", "u-1"),
        "/v1/organization/projects/p-1/users/u-1"
    );
    assert_eq!(
        endpoints::admin::project_service_accounts("p-1"),
        "/v1/organization/projects/p-1/service_accounts"
    );
    assert_eq!(
        endpoints::admin::project_service_account_by_id("p-1", "sa-1"),
        "/v1/organization/projects/p-1/service_accounts/sa-1"
    );
    assert_eq!(
        endpoints::admin::project_api_keys("p-1"),
        "/v1/organization/projects/p-1/api_keys"
    );
    assert_eq!(
        endpoints::admin::project_api_key_by_id("p-1", "key-1"),
        "/v1/organization/projects/p-1/api_keys/key-1"
    );
    assert_eq!(
        endpoints::admin::project_rate_limits("p-1"),
        "/v1/organization/projects/p-1/rate_limits"
    );
    assert_eq!(
        endpoints::admin::project_rate_limit_by_id("p-1", "rl-1"),
        "/v1/organization/projects/p-1/rate_limits/rl-1"
    );
    assert_eq!(
        endpoints::admin::usage("completions"),
        "/v1/organization/usage/completions"
    );
}

#[test]
fn test_sdk_constants() {
    assert_eq!(sdk::NAME, "openai_rust_sdk");
    // VERSION is a compile-time constant from CARGO_PKG_VERSION, verify it follows semver pattern
    assert!(sdk::VERSION.chars().any(|c| c.is_ascii_digit()));
    assert!(sdk::USER_AGENT.starts_with("openai_rust_sdk/"));
}
