//! Further cases of the function builder, assistants, function tools and model
//! classification.

use openai_rust_sdk::builders::function_builder::FunctionBuilder;
use openai_rust_sdk::json::JsonValue;
use openai_rust_sdk::models::assistants::{AssistantRequest, AssistantTool};
use openai_rust_sdk::models::functions::{FunctionTool, Tool};
use openai_rust_sdk::models::models::{ModelCapabilities, ModelFamily, ModelTier};

fn json_string(s: &str) -> JsonValue {
    JsonValue::Str(s.to_string())
}

fn json_object(members: Vec<(&str, JsonValue)>) -> JsonValue {
    JsonValue::Object(members.into_iter().map(|(k, v)| (k.to_string(), v)).collect())
}

#[test]
fn test_function_tool_creation() {
    let func = FunctionTool::new(
        "get_weather",
        "Get weather for a location",
        json_object(vec![
            ("type", json_string("object")),
            (
                "properties",
                json_object(vec![
                    ("location", json_object(vec![("type", json_string("string"))])),
                    (
                        "unit",
                        json_object(vec![
                            ("type", json_string("string")),
                            (
                                "enum",
                                JsonValue::Array(vec![json_string("celsius"), json_string("fahrenheit")]),
                            ),
                        ]),
                    ),
                ]),
            ),
            ("required", JsonValue::Array(vec![json_string("location")])),
        ]),
    );

    assert_eq!(func.name, "get_weather");
    assert_eq!(func.description, "Get weather for a location");
    assert!(func.strict.is_none());
}

#[test]
fn test_build_as_tool() {
    let tool = FunctionBuilder::new()
        .name("test_tool")
        .description("A test tool")
        .build_tool()
        .unwrap();

    assert_eq!(tool.name(), "test_tool");
    assert_eq!(tool.description(), "A test tool");
}

#[test]
fn test_assistant_tool_creation() {
    let code_interpreter = AssistantTool::code_interpreter();
    assert_eq!(code_interpreter.tool_type(), "code_interpreter");

    let retrieval = AssistantTool::retrieval();
    assert_eq!(retrieval.tool_type(), "retrieval");
}

#[test]
fn test_assistant_request_builder() {
    let request = AssistantRequest::builder()
        .model("gpt-4")
        .name("Test Assistant")
        .description("A test assistant")
        .instructions("You are a helpful assistant")
        .tool(AssistantTool::code_interpreter())
        .file_id("file-123")
        .metadata_pair("purpose", "testing")
        .build()
        .unwrap();

    assert_eq!(request.model, "gpt-4");
    assert_eq!(request.name, Some("Test Assistant".to_string()));
    assert_eq!(request.tools.len(), 1);
    assert_eq!(request.file_ids.len(), 1);
    assert_eq!(request.metadata.len(), 1);
}

#[test]
fn test_assistant_request_validation() {
    // Test name length validation
    let long_name = "a".repeat(257);
    let request = AssistantRequest::builder()
        .model("gpt-4")
        .name(&long_name)
        .build();
    assert!(request.is_err());

    // Test valid request
    let request = AssistantRequest::builder()
        .model("gpt-4")
        .name("Valid Name")
        .build();
    assert!(request.is_ok());
}

#[test]
fn test_function_tool_with_strict() {
    let func = FunctionTool::simple("test", "Test function").with_strict(true);
    assert_eq!(func.strict, Some(true));
}

#[test]
fn test_tool_creation() {
    let func_tool = FunctionTool::simple("test", "Test");
    let tool = Tool::function(func_tool);

    assert_eq!(tool.name(), "test");
    assert_eq!(tool.description(), "Test");
}

#[test]
fn test_model_family_classification() {
    assert_eq!(
        ModelCapabilities::classify_family("gpt-4o"),
        ModelFamily::GPT4o
    );
    assert_eq!(
        ModelCapabilities::classify_family("gpt-4-turbo"),
        ModelFamily::GPT4Turbo
    );
    assert_eq!(
        ModelCapabilities::classify_family("gpt-4"),
        ModelFamily::GPT4
    );
    assert_eq!(
        ModelCapabilities::classify_family("gpt-3.5-turbo"),
        ModelFamily::GPT35
    );
    assert_eq!(
        ModelCapabilities::classify_family("dall-e-3"),
        ModelFamily::DALLE
    );
    assert_eq!(
        ModelCapabilities::classify_family("whisper-1"),
        ModelFamily::Whisper
    );
    assert_eq!(
        ModelCapabilities::classify_family("text-embedding-ada-002"),
        ModelFamily::Embeddings
    );
}

#[test]
fn test_model_tier_classification() {
    assert_eq!(
        ModelCapabilities::classify_tier("text-davinci-003"),
        ModelTier::Legacy
    );
    assert_eq!(
        ModelCapabilities::classify_tier("gpt-4"),
        ModelTier::Premium
    );
    assert_eq!(
        ModelCapabilities::classify_tier("gpt-3.5-turbo"),
        ModelTier::Standard
    );
    assert_eq!(
        ModelCapabilities::classify_tier("gpt-4-preview"),
        ModelTier::Experimental
    );
}

#[test]
fn test_model_capabilities() {
    let caps = ModelCapabilities::from_model_id("gpt-4o");
    assert_eq!(caps.family, ModelFamily::GPT4o);
    assert!(caps.supports_function_calling);
    assert!(caps.supports_vision);
    assert_eq!(caps.max_tokens, Some(128_000));
}
