//! # Conversations API Models
//!
//! Conversations and their items

use vstd::prelude::*;
use crate::json::JsonValue;

verus! {

/// A conversation object returned by the Conversations API.
#[derive(Debug, Clone)]
pub struct Conversation {
    /// The unique identifier for the conversation.
    pub id: String,
    /// The object type, always "conversation".
    pub object: String,
    /// Unix timestamp (in seconds) of when the conversation was created.
    pub created_at: u64,
    /// Optional metadata associated with the conversation.
    pub metadata: Option<Vec<(String, String)>>,
}

/// Request body for creating a new conversation.
#[derive(Debug, Clone)]
pub struct CreateConversationRequest {
    /// Optional metadata to attach to the conversation.
    pub metadata: Option<Vec<(String, String)>>,
}

/// Request body for updating an existing conversation.
#[derive(Debug, Clone)]
pub struct UpdateConversationRequest {
    /// Optional metadata to update on the conversation.
    pub metadata: Option<Vec<(String, String)>>,
}

/// Response returned when a conversation is deleted.
#[derive(Debug, Clone)]
pub struct ConversationDeleteResponse {
    /// The ID of the deleted conversation.
    pub id: String,
    /// The object type.
    pub object: String,
    /// Whether the conversation was successfully deleted.
    pub deleted: bool,
}

/// An item within a conversation.
#[derive(Debug, Clone)]
pub struct ConversationItem {
    /// The unique identifier for the item.
    pub id: String,
    /// The object type.
    pub object: String,
    /// The ID of the conversation this item belongs to.
    pub conversation_id: Option<String>,
    /// Unix timestamp (in seconds) of when the item was created.
    pub created_at: u64,
    /// The type of the item (e.g., "message").
    pub type_field: String,
    /// The role of the item author (e.g., "user", "assistant").
    pub role: Option<String>,
    /// The content of the item.
    pub content: Option<Vec<JsonValue>>,
    /// The status of the item (e.g., "completed", "in_progress").
    pub status: Option<String>,
}

/// Request body for creating a new item in a conversation.
#[derive(Debug, Clone)]
pub struct CreateConversationItemRequest {
    /// The type of the item (e.g., "message").
    pub type_field: String,
    /// The role of the item author (e.g., "user", "assistant").
    pub role: Option<String>,
    /// The content of the item.
    pub content: Option<Vec<JsonValue>>,
}

/// A paginated list of conversation items.
#[derive(Debug, Clone)]
pub struct ConversationItemList {
    /// The object type, typically "list".
    pub object: String,
    /// The list of conversation items.
    pub data: Vec<ConversationItem>,
    /// The ID of the first item in the list.
    pub first_id: Option<String>,
    /// The ID of the last item in the list.
    pub last_id: Option<String>,
    /// Whether there are more items available beyond this page.
    pub has_more: bool,
}

/// Query parameters for listing items in a conversation.
#[derive(Debug, Clone)]
pub struct ListConversationItemsParams {
    /// Maximum number of items to return.
    pub limit: Option<u32>,
    /// Sort order by created_at timestamp ("asc" or "desc").
    pub order: Option<String>,
    /// Cursor for forward pagination; returns items after this ID.
    pub after: Option<String>,
    /// Cursor for backward pagination; returns items before this ID.
    pub before: Option<String>,
}

} // verus!
