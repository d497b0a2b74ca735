//! Data models: admin, assistants, audio, embeddings, evals, fine-tuning, functions,
//! GPT-5 and model listings.

use openai_rust_sdk::models::admin::{
    InviteDeleteResponse, ListAdminParams, ProjectApiKeyDeleteResponse,
    ProjectServiceAccountDeleteResponse, ProjectUserDeleteResponse, UserDeleteResponse,
};
use openai_rust_sdk::models::assistants::{ListAssistantsParams, SortOrder};
use openai_rust_sdk::models::audio::AudioSpeechResponse;
use openai_rust_sdk::models::embeddings::{
    EmbeddingBuilder, EmbeddingInput, EmbeddingModels, EmbeddingRequest, EncodingFormat,
};
use openai_rust_sdk::models::evals::{
    EvalDeleteResponse, ListEvalRunOutputItemsParams, ListEvalRunsParams, ListEvalsParams,
};
use openai_rust_sdk::models::fine_tuning::{FineTuningJobStatus, ListFineTuningJobsParams};
use openai_rust_sdk::models::functions::{CustomTool, Grammar, ToolChoice};
use openai_rust_sdk::models::gpt5::{models, GPT5ModelSelector};
use openai_rust_sdk::models::models::{CompletionType, Model, ModelRequirements};

#[test]
fn test_list_admin_params_default() {
    let params = ListAdminParams::default();
    assert!(params.limit.is_none());
    assert!(params.after.is_none());
    assert!(params.before.is_none());
}

#[test]
fn test_delete_responses_serialize() {
    let invite_del = InviteDeleteResponse {
        object: "organization.invite.deleted".to_string(),
        id: "invite-1".to_string(),
        deleted: true,
    };
    let user_del = UserDeleteResponse {
        object: "organization.user.deleted".to_string(),
        id: "user-1".to_string(),
        deleted: true,
    };
    let proj_user_del = ProjectUserDeleteResponse {
        object: "organization.project.user.deleted".to_string(),
        id: "user-2".to_string(),
        deleted: true,
    };
    let sa_del = ProjectServiceAccountDeleteResponse {
        object: "organization.project.service_account.deleted".to_string(),
        id: "sa-1".to_string(),
        deleted: true,
    };
    let key_del = ProjectApiKeyDeleteResponse {
        object: "organization.project.api_key.deleted".to_string(),
        id: "key-1".to_string(),
        deleted: true,
    };

    assert!(invite_del.deleted);
    assert!(user_del.deleted);
    assert!(proj_user_del.deleted);
    assert!(sa_del.deleted);
    assert!(key_del.deleted);
}

#[test]
fn test_list_params_limit_clamping() {
    let params = ListAssistantsParams::new().limit(150);
    assert_eq!(params.limit, Some(100));

    let params = ListAssistantsParams::new().limit(0);
    assert_eq!(params.limit, Some(1));
}

#[test]
fn test_sort_order_default() {
    let order = SortOrder::default();
    assert_eq!(order, SortOrder::Desc);
}

#[test]
fn audio_test_audio_response_methods() {
    let response = AudioSpeechResponse::new(vec![1, 2, 3, 4], "audio/mpeg".to_string());
    assert_eq!(response.data(), &[1, 2, 3, 4]);
    assert_eq!(response.content_type(), "audio/mpeg");
}

#[test]
fn mod_test_audio_response_methods() {
    let response = AudioSpeechResponse::new(vec![1, 2, 3, 4], "audio/mpeg".to_string());
    assert_eq!(response.data(), &[1, 2, 3, 4]);
    assert_eq!(response.content_type(), "audio/mpeg");
}

#[test]
fn test_embedding_request_creation() {
    let req = EmbeddingRequest::new("text-embedding-ada-002", "Hello world");
    assert_eq!(req.model, "text-embedding-ada-002");
    matches!(req.input, EmbeddingInput::String(s) if s == "Hello world");
}

#[test]
fn test_embedding_builder() {
    let req = EmbeddingBuilder::new(EmbeddingModels::EMBEDDING_3_SMALL, "Test")
        .dimensions(512)
        .float_format()
        .user("user123")
        .build();

    assert_eq!(req.dimensions, Some(512));
    assert!(matches!(req.encoding_format, Some(EncodingFormat::Float)));
    assert_eq!(req.user, Some("user123".to_string()));
}

#[test]
fn test_batch_embeddings() {
    let inputs = vec![
        "First".to_string(),
        "Second".to_string(),
        "Third".to_string(),
    ];
    let req = EmbeddingRequest::new_batch("text-embedding-ada-002", inputs.clone());

    match req.input {
        EmbeddingInput::StringArray(arr) => assert_eq!(arr, inputs),
        _ => panic!("Expected StringArray"),
    }
}

#[test]
fn test_eval_delete_response() {
    let response = EvalDeleteResponse {
        id: "eval_abc123".to_string(),
        object: "eval".to_string(),
        deleted: true,
    };

    assert!(response.deleted);
    assert_eq!(response.id, "eval_abc123");
}

#[test]
fn test_list_params_defaults() {
    let params = ListEvalsParams::default();
    assert!(params.limit.is_none());
    assert!(params.order.is_none());
    assert!(params.after.is_none());
    assert!(params.before.is_none());

    let run_params = ListEvalRunsParams::default();
    assert!(run_params.limit.is_none());

    let output_params = ListEvalRunOutputItemsParams::default();
    assert!(output_params.status.is_none());
}

#[test]
fn test_fine_tuning_job_status() {
    assert!(FineTuningJobStatus::Succeeded.is_terminal());
    assert!(FineTuningJobStatus::Failed.is_terminal());
    assert!(FineTuningJobStatus::Cancelled.is_terminal());

    assert!(!FineTuningJobStatus::Running.is_terminal());
    assert!(FineTuningJobStatus::Running.is_active());
}

#[test]
fn test_list_params() {
    let params = ListFineTuningJobsParams::new()
        .after("ft-job-123")
        .limit(50);

    assert_eq!(params.after, Some("ft-job-123".to_string()));
    assert_eq!(params.limit, Some(50));
}

#[test]
fn test_custom_tool_with_grammar() {
    let tool =
        CustomTool::new("parser", "Parse text").with_lark_grammar("start: word+\nword: /\\w+/");

    assert_eq!(tool.name, "parser");
    assert!(tool.grammar.is_some());

    if let Some(Grammar::Lark { definition }) = &tool.grammar {
        assert!(definition.contains("start: word+"));
    } else {
        panic!("Expected Lark grammar");
    }
}

#[test]
fn test_tool_choice_variants() {
    let auto = ToolChoice::auto();
    let required = ToolChoice::required();
    let none = ToolChoice::none();
    let function = ToolChoice::function("get_weather");
    let allowed = ToolChoice::allowed_tools(vec!["tool1".to_string(), "tool2".to_string()]);

    // Just test that they can be created without panicking
    assert!(matches!(auto, ToolChoice::Auto));
    assert!(matches!(required, ToolChoice::Required));
    assert!(matches!(none, ToolChoice::NoTool));
    assert!(matches!(function, ToolChoice::Function { .. }));
    assert!(matches!(allowed, ToolChoice::AllowedTools { .. }));
}

#[test]
fn current_model_selector_prefers_latest_models() {
    assert_eq!(
        GPT5ModelSelector::for_complex_reasoning(),
        models::GPT_5_6_SOL
    );
    assert_eq!(
        GPT5ModelSelector::for_cost_optimized(),
        models::GPT_5_4_MINI
    );
    assert_eq!(
        GPT5ModelSelector::for_high_throughput(),
        models::GPT_5_4_NANO
    );
    assert_eq!(GPT5ModelSelector::for_coding(), models::GPT_5_4);
    assert_eq!(GPT5ModelSelector::for_chat(), models::GPT_5_3_CHAT_LATEST);
}

#[test]
fn test_model_is_deprecated() {
    let model = Model {
        id: "text-davinci-003".to_string(),
        object: "model".to_string(),
        created: 1_234_567_890,
        owned_by: "openai".to_string(),
        root: None,
        parent: None,
        permission: None,
    };

    assert!(model.is_deprecated());
    assert!(!model.is_available());
}

#[test]
fn test_model_supports_completion_type() {
    let model = Model {
        id: "gpt-4".to_string(),
        object: "model".to_string(),
        created: 1_234_567_890,
        owned_by: "openai".to_string(),
        root: None,
        parent: None,
        permission: None,
    };

    assert!(model.supports_completion_type(&CompletionType::Chat));
    assert!(!model.supports_completion_type(&CompletionType::Image));
}

#[test]
fn test_model_requirements() {
    let req = ModelRequirements::function_calling();
    assert!(req.requires_function_calling);
    assert!(req.completion_types.contains(&CompletionType::Chat));

    let req = ModelRequirements::high_context(100_000);
    assert_eq!(req.min_max_tokens, Some(100_000));
}
