//! Behaviour of the library on concrete values: error cases, edge cases, exact
//! results of the formulas, and the laws on examples.

use openai_rust_sdk::api::base::{HttpClient, EMPTY_API_KEY};
use openai_rust_sdk::api::common::ApiClientConstructors;
use openai_rust_sdk::api::vector_stores::{PollStep, VectorStoreUsage, VectorStoresApi};
use openai_rust_sdk::api::videos::VideosApi;
use openai_rust_sdk::builders::function_builder::{
    FunctionBuilder, DESCRIPTION_REQUIRED, NAME_REQUIRED,
};
use openai_rust_sdk::builders::macros::require;
use openai_rust_sdk::client::{
    from_env_values, from_env_with_base_url_values, ConversationState, EnvVar, OpenAIClient,
    API_KEY_NOT_SET, BASE_URL_EMPTY, BASE_URL_NOT_UNICODE,
};
use openai_rust_sdk::error::{OpenAIError, Result};
use openai_rust_sdk::helpers::file_operations::create_file_error;
use openai_rust_sdk::json::JsonValue;
use openai_rust_sdk::models::assistants::{
    AssistantRequest, AssistantRequestBuilder, AssistantTool, ListAssistantsParams, SortOrder,
};
use openai_rust_sdk::models::files::{bytes_to_human_readable, FilePurpose, FileUploadRequest};
use openai_rust_sdk::models::fine_tuning::{
    FineTuningJobStatus, ListFineTuningJobCheckpointsParams,
};
use openai_rust_sdk::models::gpt5::{models, GPT5ModelSelector};
use openai_rust_sdk::models::images::ImageData;
use openai_rust_sdk::models::models::{
    CompletionType, ListModelsResponse, Model, ModelCapabilities, ModelFamily, ModelRequirements,
};
use openai_rust_sdk::models::responses::{Message, MessageRole, MessageContentInput};
use openai_rust_sdk::models::videos::ListVideosParams;
use openai_rust_sdk::schema::builder::SchemaBuilder;
use openai_rust_sdk::text::{count_words, trim};

fn pairs(v: &[(&str, &str)]) -> Vec<(String, String)> {
    v.iter().map(|(a, b)| (a.to_string(), b.to_string())).collect()
}

fn model(id: &str, created: u64) -> Model {
    Model {
        id: id.to_string(),
        object: "model".to_string(),
        created,
        owned_by: "openai".to_string(),
        root: None,
        parent: None,
        permission: None,
    }
}

// ─── Client settings and headers ─────────────────────────────────────────────

#[test]
fn blank_api_keys_are_refused_with_authentication_error() {
    for key in ["", "   ", "\t\n"] {
        match HttpClient::new(key) {
            Err(OpenAIError::Authentication(msg)) => {
                assert_eq!(msg, EMPTY_API_KEY);
                assert!(msg.contains("API key"));
            }
            other => panic!("expected an authentication error, got {other:?}"),
        }
    }
    assert!(matches!(
        OpenAIClient::new(" "),
        Err(OpenAIError::Authentication(_))
    ));
    assert!(VideosApi::new("\u{3000}").is_err());
}

#[test]
fn headers_carry_the_bearer_key_in_order() {
    let client = HttpClient::new("sk-test").unwrap();
    let headers = client.build_headers().unwrap();
    assert_eq!(
        headers.entries,
        pairs(&[
            ("Authorization", "Bearer sk-test"),
            ("Content-Type", "application/json"),
            ("User-Agent", "openai_rust_sdk/0.1.0"),
        ])
    );
    assert_eq!(headers.get("Authorization"), Some("Bearer sk-test"));
    assert_eq!(headers.get("OpenAI-Beta"), None);
    let beta = client.build_headers_with_beta().unwrap();
    assert_eq!(beta.get("OpenAI-Beta"), Some("assistants=v1"));
    assert_eq!(beta.entries.len(), 4);
}

#[test]
fn key_with_control_character_cannot_be_sent() {
    let client = HttpClient::new("sk\ntest").unwrap();
    match client.build_headers() {
        Err(OpenAIError::InvalidRequest(msg)) => assert_eq!(msg, "Invalid API key format"),
        other => panic!("expected an invalid request, got {other:?}"),
    }
}

#[test]
fn url_joins_origin_and_path() {
    let client = HttpClient::new_with_base_url("k", "https://example.test").unwrap();
    assert_eq!(client.url("/v1/models"), "https://example.test/v1/models");
}

#[test]
fn environment_values_decide_the_client() {
    match from_env_values(None, EnvVar::NotPresent) {
        Err(OpenAIError::Authentication(msg)) => assert_eq!(msg, API_KEY_NOT_SET),
        other => panic!("unexpected {other:?}"),
    }
    match from_env_values(Some("k"), EnvVar::NotUnicode) {
        Err(OpenAIError::InvalidRequest(msg)) => assert_eq!(msg, BASE_URL_NOT_UNICODE),
        other => panic!("unexpected {other:?}"),
    }
    match from_env_values(Some("k"), EnvVar::Present("  \t ".to_string())) {
        Err(OpenAIError::InvalidRequest(msg)) => assert_eq!(msg, BASE_URL_EMPTY),
        other => panic!("unexpected {other:?}"),
    }
    let c = from_env_values(Some("k"), EnvVar::Present("  https://proxy.test  ".to_string()))
        .unwrap();
    assert_eq!(c.responses().base_url(), "https://proxy.test");
    let d = from_env_values(Some("k"), EnvVar::NotPresent).unwrap();
    assert_eq!(d.responses().base_url(), "https://api.openai.com");
    assert!(from_env_values(Some(""), EnvVar::NotPresent).is_err());
    let e = from_env_with_base_url_values(Some("k"), "https://x.test").unwrap();
    assert_eq!(e.functions().base_url(), "https://x.test");
    assert!(from_env_with_base_url_values(None, "https://x.test").is_err());
}

#[test]
fn trim_removes_unicode_white_space_at_both_ends() {
    assert_eq!(trim("  a b \n"), "a b");
    assert_eq!(trim("\u{2003}x\u{a0}"), "x");
    assert_eq!(trim("   "), "");
    assert_eq!(trim(""), "");
}

// ─── Conversations ───────────────────────────────────────────────────────────

#[test]
fn conversation_state_counts_rounds_and_keeps_results() {
    let mut state: ConversationState<u32> =
        ConversationState::new(vec![Message::user("hi")], None);
    assert_eq!(state.max_iterations, 10);
    assert!(state.should_continue());
    assert!(state.record_response(1, true));
    assert_eq!(state.iteration_count, 1);
    assert!(!state.record_continuation(2, Some("done"), false));
    assert_eq!(state.results, vec![1, 2]);
    assert_eq!(state.current_messages.len(), 2);
    assert_eq!(state.current_messages[1].role, MessageRole::Assistant);
    let MessageContentInput::Text(t) = &state.current_messages[1].content;
    assert_eq!(t, "done");
    assert!(!state.record_continuation(3, None, false));
    assert_eq!(state.current_messages.len(), 2);
    let mut short: ConversationState<u32> = ConversationState::new(Vec::new(), Some(1));
    assert!(!short.record_response(7, false));
    assert!(!short.should_continue());
}

// ─── Vector stores ───────────────────────────────────────────────────────────

#[test]
fn usage_statistics_of_two_stores() {
    let stores = [
        VectorStoreUsage {
            usage_bytes: 100,
            ready: true,
            processing: false,
            total_files: 3,
            completed_files: 3,
            failed_files: 0,
        },
        VectorStoreUsage {
            usage_bytes: 51,
            ready: false,
            processing: true,
            total_files: 2,
            completed_files: 1,
            failed_files: 1,
        },
    ];
    assert_eq!(
        VectorStoresApi::usage_statistics(&stores),
        pairs(&[
            ("total_stores", "2"),
            ("total_usage_bytes", "151"),
            ("ready_stores", "1"),
            ("processing_stores", "1"),
            ("average_usage_bytes", "75"),
            ("total_files", "5"),
            ("completed_files", "4"),
            ("failed_files", "1"),
        ])
    );
}

#[test]
fn usage_statistics_of_no_store_has_no_average() {
    assert_eq!(
        VectorStoresApi::usage_statistics(&[]),
        pairs(&[
            ("total_stores", "0"),
            ("total_usage_bytes", "0"),
            ("ready_stores", "0"),
            ("processing_stores", "0"),
            ("total_files", "0"),
            ("completed_files", "0"),
            ("failed_files", "0"),
        ])
    );
}

#[test]
fn wait_loop_decisions() {
    assert_eq!(VectorStoresApi::wait_settings(None, None), (300, 5));
    assert_eq!(VectorStoresApi::wait_settings(Some(10), Some(1)), (10, 1));
    assert_eq!(VectorStoresApi::poll_step(true, 1000, 10), PollStep::Done);
    assert_eq!(VectorStoresApi::poll_step(false, 10, 10), PollStep::TimedOut);
    assert_eq!(VectorStoresApi::poll_step(false, 9, 10), PollStep::Wait);
    match VectorStoresApi::store_not_ready_error("vs-1", 300) {
        OpenAIError::Timeout(m) => {
            assert_eq!(m, "Vector store vs-1 did not become ready within 300 seconds")
        }
        other => panic!("unexpected {other:?}"),
    }
    match VectorStoresApi::batch_not_complete_error("b-2", 5) {
        OpenAIError::Timeout(m) => assert_eq!(m, "File batch b-2 did not complete within 5 seconds"),
        other => panic!("unexpected {other:?}"),
    }
}

#[test]
fn existence_from_retrieval_result() {
    let found: Result<u8> = Ok(1);
    assert!(matches!(VectorStoresApi::exists_from_result(found), Ok(true)));
    let missing: Result<u8> = Err(OpenAIError::ApiError { status: 404, message: "no".to_string() });
    assert!(matches!(VectorStoresApi::exists_from_result(missing), Ok(false)));
    let failed: Result<u8> = Err(OpenAIError::ApiError { status: 500, message: "x".to_string() });
    assert!(matches!(
        VectorStoresApi::exists_from_result(failed),
        Err(OpenAIError::ApiError { status: 500, .. })
    ));
    let other: Result<u8> = Err(OpenAIError::Timeout("t".to_string()));
    assert!(matches!(VectorStoresApi::exists_from_result(other), Err(OpenAIError::Timeout(_))));
}

#[test]
fn video_listing_query_in_order() {
    let params = ListVideosParams::new().with_before("b").with_limit(7).with_order("asc");
    assert_eq!(
        VideosApi::list_videos_query(&params),
        pairs(&[("limit", "7"), ("order", "asc"), ("before", "b")])
    );
    assert!(VideosApi::list_videos_query(&ListVideosParams::default()).is_empty());
}

// ─── Assistants ──────────────────────────────────────────────────────────────

#[test]
fn assistant_listing_query_and_clamping() {
    let params = ListAssistantsParams::new()
        .limit(100)
        .order(SortOrder::Asc)
        .after("asst_1")
        .before("asst_9");
    assert_eq!(
        params.to_query_params(),
        pairs(&[("limit", "100"), ("order", "asc"), ("after", "asst_1"), ("before", "asst_9")])
    );
    assert_eq!(params.order_str(), Some("asc"));
    assert_eq!(ListAssistantsParams::new().limit(42).limit, Some(42));
    assert_eq!(ListAssistantsParams::new().limit(u32::MAX).limit, Some(100));
    assert_eq!(ListAssistantsParams::new().order_str(), None);
}

#[test]
fn assistant_request_limits_count_characters() {
    let ok = AssistantRequest::builder().model("gpt-4").name(&"a".repeat(256)).build();
    assert!(ok.is_ok());
    let wide = AssistantRequest::builder().model("gpt-4").name(&"é".repeat(256)).build();
    assert!(wide.is_ok());
    let wide_key = AssistantRequest::builder().model("gpt-4").metadata_pair("ключ", &"ü".repeat(512)).build();
    assert!(wide_key.is_ok());
    let too_long = AssistantRequest::builder().model("gpt-4").name(&"é".repeat(257)).build();
    assert_eq!(
        too_long.unwrap_err(),
        "Assistant name cannot exceed 256 characters"
    );
    let desc = AssistantRequest::builder().model("m").description(&"d".repeat(513)).build();
    assert_eq!(desc.unwrap_err(), "Assistant description cannot exceed 512 characters");
    let instr = AssistantRequest::builder().model("m").instructions(&"i".repeat(32769)).build();
    assert_eq!(instr.unwrap_err(), "Assistant instructions cannot exceed 32768 characters");
    let mut tools = AssistantRequestBuilder::new().model("m");
    for _ in 0..129 {
        tools = tools.tool(AssistantTool::retrieval());
    }
    assert_eq!(tools.build().unwrap_err(), "Assistant cannot have more than 128 tools");
    let files: Vec<String> = (0..21).map(|i| format!("file-{i}")).collect();
    let many_files = AssistantRequestBuilder::new().model("m").file_ids(files).build();
    assert_eq!(many_files.unwrap_err(), "Assistant cannot have more than 20 file IDs");
    assert_eq!(AssistantRequestBuilder::new().build().unwrap_err(), "Model is required");
}

#[test]
fn assistant_metadata_rules() {
    let mut b = AssistantRequestBuilder::new().model("m");
    for i in 0..17 {
        b = b.metadata_pair(&format!("k{i}"), "v");
    }
    assert_eq!(b.build().unwrap_err(), "Assistant cannot have more than 16 metadata pairs");
    let replaced = AssistantRequestBuilder::new()
        .model("m")
        .metadata_pair("k", "1")
        .metadata_pair("j", "2")
        .metadata_pair("k", "3")
        .build()
        .unwrap();
    assert_eq!(replaced.metadata, pairs(&[("k", "3"), ("j", "2")]));
    let long_key = AssistantRequestBuilder::new().model("m").metadata_pair(&"k".repeat(65), "v");
    assert_eq!(long_key.build().unwrap_err(), "Metadata key cannot exceed 64 characters");
    let long_value = AssistantRequestBuilder::new().model("m").metadata_pair("k", &"v".repeat(513));
    assert_eq!(long_value.build().unwrap_err(), "Metadata value cannot exceed 512 characters");
    assert_eq!(AssistantTool::code_interpreter().tool_type(), "code_interpreter");
}

// ─── Fine-tuning and GPT-5 ───────────────────────────────────────────────────

#[test]
fn every_job_status_is_terminal_or_active_but_not_both() {
    for s in [
        FineTuningJobStatus::ValidatingFiles,
        FineTuningJobStatus::Queued,
        FineTuningJobStatus::Running,
        FineTuningJobStatus::Succeeded,
        FineTuningJobStatus::Failed,
        FineTuningJobStatus::Cancelled,
    ] {
        assert_ne!(s.is_terminal(), s.is_active());
    }
}

#[test]
fn page_query_is_after_then_limit() {
    let p = ListFineTuningJobCheckpointsParams::new().limit(5).after("ckpt-1");
    assert_eq!(p.to_query_params(), pairs(&[("after", "ckpt-1"), ("limit", "5")]));
}

#[test]
fn migration_targets_are_gpt5_models() {
    assert_eq!(GPT5ModelSelector::migration_from("o4-mini"), models::GPT_5_MINI);
    assert_eq!(GPT5ModelSelector::migration_from("gpt-4.1-mini"), models::GPT_5_MINI);
    assert_eq!(GPT5ModelSelector::migration_from("gpt-4.1-nano"), models::GPT_5_NANO);
    assert_eq!(GPT5ModelSelector::migration_from("gpt-3.5-turbo"), models::GPT_5_NANO);
    assert_eq!(GPT5ModelSelector::migration_from("o3"), models::GPT_5);
    assert_eq!(GPT5ModelSelector::migration_from("anything"), models::GPT_5);
}

// ─── Functions and schemas ───────────────────────────────────────────────────

#[test]
fn function_builder_errors_name_the_missing_field() {
    match FunctionBuilder::new().build() {
        Err(OpenAIError::InvalidRequest(m)) => assert_eq!(m, NAME_REQUIRED),
        other => panic!("unexpected {other:?}"),
    }
    match FunctionBuilder::new().name("f").build() {
        Err(OpenAIError::InvalidRequest(m)) => assert_eq!(m, DESCRIPTION_REQUIRED),
        other => panic!("unexpected {other:?}"),
    }
    let tool = FunctionBuilder::new().name("f").description("d").build_tool().unwrap();
    assert_eq!(tool.name(), "f");
    assert_eq!(tool.description(), "d");
}

fn json_str(s: &str) -> JsonValue {
    JsonValue::Str(s.to_string())
}

#[test]
fn weather_function_parameters_schema() {
    let f = FunctionBuilder::weather_function("w", "weather").build().unwrap();
    let props = f.parameters.get("properties").unwrap();
    let location = props.get("location").unwrap();
    assert!(matches!(location.get("type"), Some(JsonValue::Str(t)) if t == "string"));
    let unit = props.get("unit").unwrap();
    match unit.get("enum") {
        Some(JsonValue::Array(v)) => {
            assert_eq!(v.len(), 2);
            assert!(matches!(&v[0], JsonValue::Str(s) if s == "celsius"));
        }
        other => panic!("unexpected {other:?}"),
    }
    match f.parameters.get("required") {
        Some(JsonValue::Array(v)) => {
            assert_eq!(v.len(), 1);
            assert!(matches!(&v[0], JsonValue::Str(s) if s == "location"));
        }
        other => panic!("unexpected {other:?}"),
    }
    assert!(f.parameters.get("missing").is_none());
    assert!(json_str("x").get("type").is_none());
}

#[test]
fn schema_members_in_order() {
    let v = SchemaBuilder::array(SchemaBuilder::integer()).description("ids").build().unwrap();
    match v {
        JsonValue::Object(m) => {
            let keys: Vec<&str> = m.iter().map(|(k, _)| k.as_str()).collect();
            assert_eq!(keys, vec!["type", "description", "items"]);
        }
        other => panic!("unexpected {other:?}"),
    }
    let copy = SchemaBuilder::new_object().build().unwrap().clone();
    match copy {
        JsonValue::Object(m) => {
            let keys: Vec<&str> = m.iter().map(|(k, _)| k.as_str()).collect();
            assert_eq!(keys, vec!["type", "properties", "required"]);
        }
        other => panic!("unexpected {other:?}"),
    }
}

// ─── Models ──────────────────────────────────────────────────────────────────

#[test]
fn capabilities_of_known_models() {
    let c = ModelCapabilities::from_model_id("gpt-4-32k");
    assert_eq!(c.max_tokens, Some(32768));
    assert_eq!(c.input_cost_per_1m_tokens_milli, Some(30000));
    let t = ModelCapabilities::from_model_id("gpt-4-turbo-vision");
    assert_eq!(t.family, ModelFamily::GPT4Turbo);
    assert!(t.supports_vision);
    let old = ModelCapabilities::from_model_id("gpt-3.5-turbo-0301");
    assert!(!old.supports_function_calling);
    let e = ModelCapabilities::from_model_id("text-embedding-3-small");
    assert_eq!(e.completion_types, vec![CompletionType::Embeddings]);
    assert_eq!(e.output_cost_per_1m_tokens_milli, None);
}

#[test]
fn grouping_and_latest_models() {
    let list = ListModelsResponse {
        object: "list".to_string(),
        data: vec![
            model("gpt-4", 10),
            model("dall-e-3", 5),
            model("gpt-4-0314", 99),
            model("gpt-4-0613", 20),
            model("dall-e-2", 5),
        ],
    };
    let groups = list.group_by_family();
    assert_eq!(groups.len(), 2);
    assert_eq!(groups[0].0, ModelFamily::GPT4);
    assert_eq!(groups[0].1.len(), 3);
    assert_eq!(groups[1].0, ModelFamily::DALLE);
    assert_eq!(groups[1].1.len(), 2);
    assert!(groups.iter().all(|(_, g)| !g.is_empty()));
    assert_eq!(groups.iter().map(|(_, g)| g.len()).sum::<usize>(), list.data.len());
    let latest = list.latest_models();
    assert_eq!(latest.len(), 2);
    assert_eq!(latest[0].1.id, "gpt-4-0613");
    assert_eq!(latest[1].1.id, "dall-e-3");
    assert_eq!(list.available_models().len(), 4);
    assert_eq!(list.filter_by_family(&ModelFamily::DALLE).len(), 2);
    assert_eq!(list.filter_by_completion_type(&CompletionType::Image).len(), 2);
    let suitable = list.find_suitable_models(&ModelRequirements::function_calling());
    let ids: Vec<&str> = suitable.iter().map(|m| m.id.as_str()).collect();
    assert_eq!(ids, vec!["gpt-4", "gpt-4-0613"]);
    assert!(list.find_suitable_models(&ModelRequirements::high_context(100_000)).is_empty());
}

// ─── Files, images, helpers ──────────────────────────────────────────────────

fn human_readable_with_floats(bytes: u64) -> String {
    let bytes = bytes as f64;
    if bytes < 1024.0 {
        format!("{bytes} B")
    } else if bytes < 1024.0 * 1024.0 {
        format!("{:.1} KB", bytes / 1024.0)
    } else if bytes < 1024.0 * 1024.0 * 1024.0 {
        format!("{:.1} MB", bytes / (1024.0 * 1024.0))
    } else {
        format!("{:.1} GB", bytes / (1024.0 * 1024.0 * 1024.0))
    }
}

#[test]
fn human_readable_sizes_match_floating_point_formatting() {
    let mut samples: Vec<u64> = vec![
        0,
        1,
        1023,
        1024,
        1075,
        1076,
        1127,
        1536,
        10 * 1024 - 1,
        1024 * 1024 - 1,
        1024 * 1024,
        1024 * 1024 * 1024 - 1,
        1024 * 1024 * 1024,
        (1u64 << 53) + 1,
        u64::MAX,
        u64::MAX - 1,
    ];
    let mut x: u64 = 0x9E37_79B9_7F4A_7C15;
    for _ in 0..2000 {
        x ^= x << 13;
        x ^= x >> 7;
        x ^= x << 17;
        samples.push(x >> (x % 64));
    }
    for b in samples {
        assert_eq!(bytes_to_human_readable(b), human_readable_with_floats(b), "bytes = {b}");
    }
}

#[test]
fn mime_type_ignores_letter_case() {
    let r = FileUploadRequest::new(b"x".to_vec(), "PHOTO.PNG".to_string(), FilePurpose::Vision);
    assert_eq!(r.mime_type(), "image/png");
    assert!(r.validate().is_ok());
}

#[test]
fn base64_image_data_decodes() {
    let data = ImageData { url: None, b64_json: Some("aGVsbG8=".to_string()), revised_prompt: None };
    assert_eq!(data.decode_b64_json().unwrap(), b"hello".to_vec());
    let bad = ImageData { url: None, b64_json: Some("***".to_string()), revised_prompt: None };
    assert!(bad.decode_b64_json().unwrap_err().starts_with("Failed to decode base64: "));
    let none = ImageData { url: None, b64_json: None, revised_prompt: None };
    assert_eq!(none.decode_b64_json().unwrap_err(), "No base64 data available");
}

#[test]
fn file_errors_name_operation_path_and_cause() {
    match create_file_error("/tmp/a.txt", "read", "No such file") {
        OpenAIError::FileError(m) => assert_eq!(m, "Failed to read file /tmp/a.txt: No such file"),
        other => panic!("unexpected {other:?}"),
    }
}

#[test]
fn required_fields_and_error_conversions() {
    assert_eq!(require(Some(3), "missing"), Ok(3));
    assert_eq!(require::<u8>(None, "missing"), Err("missing".to_string()));
    let e: OpenAIError = String::from("bad").into();
    assert!(matches!(e, OpenAIError::InvalidRequest(m) if m == "bad"));
    assert!(matches!(OpenAIError::network("n"), OpenAIError::Unknown(m) if m == "n"));
    assert!(matches!(
        OpenAIError::api_error(429, "slow"),
        OpenAIError::Api { status_code: 429, message } if message == "slow"
    ));
    let m = Message::developer("rules");
    assert_eq!(m.role, MessageRole::Developer);
}

#[test]
fn words_are_separated_by_white_space() {
    assert_eq!(count_words("Hello world"), 2);
    assert_eq!(count_words("  leading and  trailing \n"), 3);
    assert_eq!(count_words(""), 0);
    assert_eq!(count_words(" \t\u{2003} "), 0);
    assert_eq!(count_words("one"), 1);
}
