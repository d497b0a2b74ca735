//! The high-level client and the conversation builder.

use openai_rust_sdk::client::{ChatBuilder, OpenAIClient};
use openai_rust_sdk::models::responses::MessageRole;

#[test]
fn test_client_creation() {
    let client = OpenAIClient::new("test-key").unwrap();
    assert_eq!(client.responses().api_key(), "test-key");
}

#[test]
fn test_chat_builder() {
    let conversation = ChatBuilder::new()
        .developer("You are a helpful assistant")
        .user("Hello")
        .assistant("Hi there!")
        .user("How are you?");

    let messages = conversation.build();
    assert_eq!(messages.len(), 4);
    assert_eq!(messages[0].role, MessageRole::Developer);
    assert_eq!(messages[1].role, MessageRole::User);
    assert_eq!(messages[2].role, MessageRole::Assistant);
    assert_eq!(messages[3].role, MessageRole::User);
}

#[test]
fn test_chat_builder_methods() {
    let mut builder = ChatBuilder::new();
    assert_eq!(builder.len(), 0);
    assert!(builder.is_empty());

    builder = builder.user("Test");
    assert_eq!(builder.len(), 1);
    assert!(!builder.is_empty());
}

#[test]
fn test_empty_api_key() {
    let result = OpenAIClient::new("");
    assert!(result.is_err());
}
