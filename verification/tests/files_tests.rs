//! File models: purposes, upload validation, sizes, listings.

use openai_rust_sdk::models::files::{
    File, FileDeleteResponse, FilePurpose, FileUploadRequest, ListFilesParams,
    ListFilesResponse, SortOrder,
};

#[test]
fn test_file_purpose_display() {
    assert_eq!(FilePurpose::FineTune.to_string(), "fine-tune");
    assert_eq!(FilePurpose::Assistants.to_string(), "assistants");
    assert_eq!(FilePurpose::Batch.to_string(), "batch");
    assert_eq!(FilePurpose::UserData.to_string(), "user_data");
}

#[test]
fn test_file_purpose_from_str() {
    assert_eq!(
        FilePurpose::from_str("fine-tune"),
        Ok(FilePurpose::FineTune)
    );
    assert_eq!(
        FilePurpose::from_str("assistants"),
        Ok(FilePurpose::Assistants)
    );
    assert!(FilePurpose::from_str("invalid").is_err());
}

#[test]
fn test_file_purpose_supports() {
    assert!(FilePurpose::FineTune.supports_text());
    assert!(!FilePurpose::FineTune.supports_images());
    assert!(FilePurpose::Vision.supports_images());
    assert!(!FilePurpose::Vision.supports_text());
    assert!(FilePurpose::UserData.supports_text());
    assert!(FilePurpose::UserData.supports_images());
}

#[test]
fn test_file_upload_request_validation() {
    let valid_request = FileUploadRequest::new(
        b"test content".to_vec(),
        "test.jsonl".to_string(),
        FilePurpose::FineTune,
    );
    assert!(valid_request.validate().is_ok());

    let empty_file_request =
        FileUploadRequest::new(Vec::new(), "test.jsonl".to_string(), FilePurpose::FineTune);
    assert!(empty_file_request.validate().is_err());

    let wrong_extension_request = FileUploadRequest::new(
        b"test content".to_vec(),
        "test.txt".to_string(),
        FilePurpose::FineTune,
    );
    assert!(wrong_extension_request.validate().is_err());
}

#[test]
fn test_file_upload_request_mime_type() {
    let jsonl_request = FileUploadRequest::new(
        b"test".to_vec(),
        "test.jsonl".to_string(),
        FilePurpose::FineTune,
    );
    assert_eq!(jsonl_request.mime_type(), "application/jsonl");

    let image_request = FileUploadRequest::new(
        b"test".to_vec(),
        "test.png".to_string(),
        FilePurpose::Vision,
    );
    assert_eq!(image_request.mime_type(), "image/png");
}

#[test]
fn test_file_size_human_readable() {
    let file = File {
        id: "file-123".to_string(),
        object: "file".to_string(),
        bytes: 1024,
        created_at: 1_640_995_200,
        filename: "test.txt".to_string(),
        purpose: "user_data".to_string(),
        status: "uploaded".to_string(),
        status_details: None,
    };
    assert_eq!(file.size_human_readable(), "1.0 KB");
}

#[test]
fn test_list_files_params_query() {
    let params = ListFilesParams::new()
        .with_purpose(FilePurpose::FineTune)
        .with_limit(10)
        .with_order(SortOrder::Desc);

    let query_params = params.to_query_params();
    assert_eq!(query_params.len(), 3);
    assert!(query_params.contains(&("purpose".to_string(), "fine-tune".to_string())));
    assert!(query_params.contains(&("limit".to_string(), "10".to_string())));
    assert!(query_params.contains(&("order".to_string(), "desc".to_string())));
}

#[test]
fn test_list_files_response_filters() {
    let files = vec![
        File {
            id: "file-1".to_string(),
            object: "file".to_string(),
            bytes: 100,
            created_at: 1_640_995_200,
            filename: "train.jsonl".to_string(),
            purpose: "fine-tune".to_string(),
            status: "uploaded".to_string(),
            status_details: None,
        },
        File {
            id: "file-2".to_string(),
            object: "file".to_string(),
            bytes: 200,
            created_at: 1_640_995_300,
            filename: "knowledge.pdf".to_string(),
            purpose: "assistants".to_string(),
            status: "uploaded".to_string(),
            status_details: None,
        },
    ];

    let response = ListFilesResponse {
        object: "list".to_string(),
        data: files,
        has_more: false,
        first_id: None,
        last_id: None,
    };

    let fine_tune_files = response.files_by_purpose(&FilePurpose::FineTune);
    assert_eq!(fine_tune_files.len(), 1);
    assert_eq!(fine_tune_files[0].id, "file-1");

    assert_eq!(response.total_size(), 300);
    assert_eq!(response.total_size_human_readable(), "300 B");
}

#[test]
fn test_file_delete_response() {
    let success = FileDeleteResponse::success("file-123".to_string());
    assert!(success.deleted);
    assert_eq!(success.id, "file-123");

    let failure = FileDeleteResponse::failure("file-456".to_string());
    assert!(!failure.deleted);
    assert_eq!(failure.id, "file-456");
}

#[test]
fn file_created_at_formatted_is_debug_of_system_time() {
    let file = File {
        id: "file-1".to_string(),
        object: "file".to_string(),
        bytes: 100,
        created_at: 1_640_995_200,
        filename: "train.jsonl".to_string(),
        purpose: "fine-tune".to_string(),
        status: "uploaded".to_string(),
        status_details: None,
    };
    let expected = std::time::UNIX_EPOCH + std::time::Duration::from_secs(1_640_995_200);
    assert_eq!(file.created_at_formatted(), format!("{expected:?}"));
}
