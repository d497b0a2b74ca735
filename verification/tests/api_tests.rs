//! API clients: construction, settings and request headers.

use openai_rust_sdk::api::common::ApiClientConstructors;
use openai_rust_sdk::api::threads::ThreadsApi;
use openai_rust_sdk::api::uploads::UploadsApi;
use openai_rust_sdk::api::vector_stores::VectorStoresApi;
use openai_rust_sdk::api::videos::VideosApi;
use openai_rust_sdk::models::videos::ListVideosParams;
use openai_rust_sdk::models::vector_stores::{
    ChunkingStrategy, ListVectorStoreFilesParams, ListVectorStoresParams, VectorStoreFileRequest,
    VectorStoreFileStatus,
};

#[test]
fn test_threads_api_creation() {
    let api = ThreadsApi::new("test-api-key").unwrap();
    assert_eq!(api.http_client().api_key(), "test-api-key");
    assert_eq!(api.http_client().base_url(), "https://api.openai.com");
}

#[test]
fn test_threads_api_with_custom_url() {
    let api = ThreadsApi::with_base_url("test-api-key", "https://custom.api.com").unwrap();
    assert_eq!(api.http_client().api_key(), "test-api-key");
    assert_eq!(api.http_client().base_url(), "https://custom.api.com");
}

#[test]
fn test_create_headers() {
    let api = ThreadsApi::new("test-api-key").unwrap();
    let headers = api.http_client().build_headers_with_beta().unwrap();

    assert!(headers.contains_key("Content-Type"));
    assert!(headers.contains_key("Authorization"));
    assert!(headers.contains_key("OpenAI-Beta"));
}

#[test]
fn test_uploads_api_creation() {
    let api = UploadsApi::new("test-key").unwrap();
    assert_eq!(api.client().base_url(), "https://api.openai.com");
}

#[test]
fn test_uploads_api_creation_with_base_url() {
    let api = UploadsApi::new_with_base_url("test-key", "https://custom.api.com").unwrap();
    assert_eq!(api.client().base_url(), "https://custom.api.com");
}

#[test]
fn test_uploads_api_empty_key_fails() {
    let result = UploadsApi::new("");
    assert!(result.is_err());
}

#[test]
fn test_vector_stores_api_creation() {
    let api = VectorStoresApi::new("test-key").unwrap();
    assert_eq!(api.api_key(), "test-key");
    assert_eq!(api.base_url(), "https://api.openai.com");
}

#[test]
fn test_vector_stores_api_custom_base_url() {
    let api = VectorStoresApi::new_with_base_url("test-key", "https://custom.api.com").unwrap();
    assert_eq!(api.api_key(), "test-key");
    assert_eq!(api.base_url(), "https://custom.api.com");
}

#[test]
fn test_videos_api_creation() {
    let api = VideosApi::new("test-key").unwrap();
    assert_eq!(api.client().base_url(), "https://api.openai.com");
}

#[test]
fn test_videos_api_creation_with_base_url() {
    let api = VideosApi::new_with_base_url("test-key", "https://custom.api.com").unwrap();
    assert_eq!(api.client().base_url(), "https://custom.api.com");
}

#[test]
fn test_videos_api_empty_key_fails() {
    let result = VideosApi::new("");
    assert!(result.is_err());
}

#[test]
fn test_list_videos_params_builder() {
    let params = ListVideosParams::new()
        .with_limit(5)
        .with_order("desc")
        .with_after("video-1")
        .with_before("video-99");
    assert_eq!(params.limit, Some(5));
    assert_eq!(params.order, Some("desc".to_string()));
    assert_eq!(params.after, Some("video-1".to_string()));
    assert_eq!(params.before, Some("video-99".to_string()));
}

#[test]
fn test_list_videos_params_default() {
    let params = ListVideosParams::default();
    assert!(params.limit.is_none());
    assert!(params.order.is_none());
    assert!(params.after.is_none());
    assert!(params.before.is_none());
}

#[test]
fn test_vector_store_file_request() {
    let request = VectorStoreFileRequest::new("file-123")
        .with_chunking_strategy(ChunkingStrategy::auto());

    assert_eq!(request.file_id, "file-123");
    assert_eq!(request.chunking_strategy, Some(ChunkingStrategy::Auto));
}

#[test]
fn test_list_params_query_building() {
    let store_params = ListVectorStoresParams::new()
        .with_limit(50)
        .with_order("desc")
        .with_after("vs-123");

    let query_params = store_params.to_query_params();
    assert_eq!(query_params.len(), 3);
    assert!(query_params.contains(&("limit".to_string(), "50".to_string())));

    let file_params = ListVectorStoreFilesParams::new()
        .with_filter(VectorStoreFileStatus::Completed)
        .with_limit(25);

    let file_query_params = file_params.to_query_params();
    assert_eq!(file_query_params.len(), 2);
    assert!(file_query_params.contains(&("filter".to_string(), "completed".to_string())));
}

#[test]
fn vector_store_listing_queries_in_order() {
    let q = ListVectorStoresParams::new()
        .with_before("vs-9")
        .with_after("vs-1")
        .with_order("asc")
        .with_limit(7)
        .to_query_params();
    let expected: Vec<(String, String)> = [("limit", "7"), ("order", "asc"), ("after", "vs-1"), ("before", "vs-9")]
        .iter()
        .map(|(k, v)| (k.to_string(), v.to_string()))
        .collect();
    assert_eq!(q, expected);
    assert!(ListVectorStoresParams::new().to_query_params().is_empty());
    let f = ListVectorStoreFilesParams::new()
        .with_filter(VectorStoreFileStatus::InProgress)
        .with_order("desc")
        .to_query_params();
    assert_eq!(
        f,
        vec![
            ("order".to_string(), "desc".to_string()),
            ("filter".to_string(), "in_progress".to_string())
        ]
    );
    assert_eq!(VectorStoreFileStatus::Cancelled.as_str(), "cancelled");
    assert_eq!(VectorStoreFileStatus::Failed.as_str(), "failed");
    assert_eq!(
        ChunkingStrategy::static_chunking(512, 50),
        ChunkingStrategy::Static { max_chunk_size_tokens: 512, chunk_overlap_tokens: 50 }
    );
}
