//! Conversation messages of the Responses API

use vstd::prelude::*;

verus! {

/// The author of a message
#[derive(Debug, Clone, Copy, PartialEq, Eq, Structural)]
pub enum MessageRole {
    /// A message from the user
    User,
    /// A message from the model
    Assistant,
    /// Instructions from the developer
    Developer,
    /// Instructions from the system
    System,
}

/// The content of a message
#[derive(Debug, Clone)]
pub enum MessageContentInput {
    /// Plain text
    Text(String),
}

/// A message in a conversation
#[derive(Debug, Clone)]
pub struct Message {
    /// Who wrote the message
    pub role: MessageRole,
    /// What the message says
    pub content: MessageContentInput,
}

impl Message {
    /// The text of a message
    pub open spec fn text(self) -> Seq<char> {
        match self.content {
            MessageContentInput::Text(t) => t@,
        }
    }

    /// A message with a role and text content
    pub fn with_role(role: MessageRole, content: &str) -> (r: Self)
        ensures
            r.role == role,
            r.text() == content@,
    {
        Message { role, content: MessageContentInput::Text(content.to_string()) }
    }

    /// A message from the user
    pub fn user(content: &str) -> (r: Self)
        ensures
            r.role == MessageRole::User,
            r.text() == content@,
    {
        Self::with_role(MessageRole::User, content)
    }

    /// A message from the model
    pub fn assistant(content: &str) -> (r: Self)
        ensures
            r.role == MessageRole::Assistant,
            r.text() == content@,
    {
        Self::with_role(MessageRole::Assistant, content)
    }

    /// Instructions from the developer
    pub fn developer(content: &str) -> (r: Self)
        ensures
            r.role == MessageRole::Developer,
            r.text() == content@,
    {
        Self::with_role(MessageRole::Developer, content)
    }
}

} // verus!
