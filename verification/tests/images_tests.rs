//! Image models: requests, builders, validation and responses.

use openai_rust_sdk::models::images::common::ImageRequestCommon;
use openai_rust_sdk::models::images::validation::errors;
use openai_rust_sdk::models::images::validation::models;
use openai_rust_sdk::models::images::validation::{validate_dall_e_2, validate_dall_e_3};
use openai_rust_sdk::models::images::{
    clamp_image_count, validate_request, ImageData, ImageEditBuilder, ImageEditRequest,
    ImageGenerationBuilder, ImageGenerationRequest, ImageModels, ImageQuality, ImageResponse,
    ImageResponseFormat, ImageSize, ImageStyle, ImageVariationBuilder, ImageVariationRequest,
};
use openai_rust_sdk::models::common::ImageRequestBuilder;

fn create_test_request(model: &str) -> ImageGenerationRequest {
    ImageGenerationRequest {
        model: model.to_string(),
        prompt: "test".to_string(),
        n: None,
        quality: None,
        response_format: None,
        size: None,
        style: None,
        user: None,
    }
}

#[test]
fn images_test_image_generation_request_creation() {
    let req = ImageGenerationRequest::new("dall-e-3", "A beautiful sunset");
    assert_eq!(req.model, "dall-e-3");
    assert_eq!(req.prompt, "A beautiful sunset");
    assert_eq!(req.n, None);
}

#[test]
fn images_test_image_generation_builder() {
    let req = ImageGenerationBuilder::dall_e_3("Test image")
        .hd_quality()
        .vivid_style()
        .size_1024x1024()
        .b64_json_format()
        .build();

    assert_eq!(req.model, ImageModels::DALL_E_3);
    assert_eq!(req.prompt, "Test image");
    assert_eq!(req.quality, Some(ImageQuality::Hd));
    assert_eq!(req.style, Some(ImageStyle::Vivid));
    assert_eq!(req.size, Some(ImageSize::Size1024x1024));
    assert_eq!(req.response_format, Some(ImageResponseFormat::B64Json));
}

#[test]
fn images_test_image_edit_request_creation() {
    let req = ImageEditRequest::new("dall-e-2", "image.png", "Add a cat");
    assert_eq!(req.model, "dall-e-2");
    assert_eq!(req.image, "image.png");
    assert_eq!(req.prompt, "Add a cat");
    assert_eq!(req.mask, None);
}

#[test]
fn images_test_image_variation_request_creation() {
    let req = ImageVariationRequest::new("dall-e-2", "image.png");
    assert_eq!(req.model, "dall-e-2");
    assert_eq!(req.image, "image.png");
    assert_eq!(req.n, None);
}

#[test]
fn images_test_dall_e_3_validation() {
    let mut req = ImageGenerationRequest::new("dall-e-3", "test");

    // DALL-E 3 only supports n=1
    req.n = Some(2);
    assert!(req.validate().is_err());

    req.n = Some(1);
    assert!(req.validate().is_ok());

    // DALL-E 3 doesn't support small sizes
    req.size = Some(ImageSize::Size256x256);
    assert!(req.validate().is_err());

    req.size = Some(ImageSize::Size1024x1024);
    assert!(req.validate().is_ok());
}

#[test]
fn images_test_dall_e_2_validation() {
    let mut req = ImageGenerationRequest::new("dall-e-2", "test");

    // DALL-E 2 doesn't support quality
    req.quality = Some(ImageQuality::Hd);
    assert!(req.validate().is_err());

    req.quality = None;
    assert!(req.validate().is_ok());

    // DALL-E 2 doesn't support style
    req.style = Some(ImageStyle::Vivid);
    assert!(req.validate().is_err());

    req.style = None;
    assert!(req.validate().is_ok());

    // DALL-E 2 doesn't support large sizes
    req.size = Some(ImageSize::Size1792x1024);
    assert!(req.validate().is_err());

    req.size = Some(ImageSize::Size512x512);
    assert!(req.validate().is_ok());
}

#[test]
fn test_n_clamping() {
    let req = ImageGenerationBuilder::dall_e_2("test")
        .n(15) // Should be clamped to 10
        .build();
    assert_eq!(req.n, Some(10));

    let req2 = ImageGenerationBuilder::dall_e_2("test")
        .n(0) // Should be clamped to 1
        .build();
    assert_eq!(req2.n, Some(1));
}

#[test]
fn images_test_image_data_methods() {
    let image_data = ImageData {
        url: Some("https://example.com/image.png".to_string()),
        b64_json: None,
        revised_prompt: Some("A revised prompt".to_string()),
    };

    assert!(image_data.has_url());
    assert!(!image_data.has_b64_json());
    assert_eq!(image_data.get_url(), Some("https://example.com/image.png"));
    assert_eq!(image_data.get_revised_prompt(), Some("A revised prompt"));
}

#[test]
fn images_test_image_response_methods() {
    let response = ImageResponse {
        created: 1234567890,
        data: vec![
            ImageData {
                url: Some("https://example.com/image1.png".to_string()),
                b64_json: None,
                revised_prompt: None,
            },
            ImageData {
                url: Some("https://example.com/image2.png".to_string()),
                b64_json: None,
                revised_prompt: None,
            },
        ],
    };

    assert_eq!(response.count(), 2);
    assert!(response.has_urls());
    assert!(!response.has_b64_json());
    assert_eq!(response.get_urls().len(), 2);
    assert!(response.first_image().is_some());
}

#[test]
fn builders_test_image_generation_builder() {
    let req = ImageGenerationBuilder::dall_e_3("Test image")
        .hd_quality()
        .vivid_style()
        .size_1024x1024()
        .b64_json_format()
        .build();

    assert_eq!(req.model, ImageModels::DALL_E_3);
    assert_eq!(req.prompt, "Test image");
    assert_eq!(req.quality, Some(ImageQuality::Hd));
    assert_eq!(req.style, Some(ImageStyle::Vivid));
    assert_eq!(req.size, Some(ImageSize::Size1024x1024));
    assert_eq!(req.response_format, Some(ImageResponseFormat::B64Json));
}

#[test]
fn test_image_edit_builder() {
    let req = ImageEditBuilder::dall_e_2("image.png", "Add a cat")
        .mask("mask.png")
        .n(3)
        .url_format()
        .size(ImageSize::Size512x512)
        .build();

    assert_eq!(req.model, ImageModels::DALL_E_2);
    assert_eq!(req.image, "image.png");
    assert_eq!(req.mask, Some("mask.png".to_string()));
    assert_eq!(req.prompt, "Add a cat");
    assert_eq!(req.n, Some(3));
    assert_eq!(req.response_format, Some(ImageResponseFormat::Url));
    assert_eq!(req.size, Some(ImageSize::Size512x512));
}

#[test]
fn test_image_variation_builder() {
    let req = ImageVariationBuilder::dall_e_2("image.png")
        .n(5)
        .b64_json_format()
        .size(ImageSize::Size1024x1024)
        .user("test_user")
        .build();

    assert_eq!(req.model, ImageModels::DALL_E_2);
    assert_eq!(req.image, "image.png");
    assert_eq!(req.n, Some(5));
    assert_eq!(req.response_format, Some(ImageResponseFormat::B64Json));
    assert_eq!(req.size, Some(ImageSize::Size1024x1024));
    assert_eq!(req.user, Some("test_user".to_string()));
}

#[test]
fn test_builder_n_clamping() {
    let req = ImageGenerationBuilder::dall_e_2("test")
        .n(15) // Should be clamped to 10
        .build();
    assert_eq!(req.n, Some(10));

    let req2 = ImageGenerationBuilder::dall_e_2("test")
        .n(0) // Should be clamped to 1
        .build();
    assert_eq!(req2.n, Some(1));
}

#[test]
fn test_all_size_methods() {
    let req = ImageGenerationBuilder::dall_e_2("test")
        .size_256x256()
        .build();
    assert_eq!(req.size, Some(ImageSize::Size256x256));

    let req = ImageGenerationBuilder::dall_e_2("test")
        .size_512x512()
        .build();
    assert_eq!(req.size, Some(ImageSize::Size512x512));

    let req = ImageGenerationBuilder::dall_e_3("test")
        .size_1024x1024()
        .build();
    assert_eq!(req.size, Some(ImageSize::Size1024x1024));

    let req = ImageGenerationBuilder::dall_e_3("test")
        .size_1792x1024()
        .build();
    assert_eq!(req.size, Some(ImageSize::Size1792x1024));

    let req = ImageGenerationBuilder::dall_e_3("test")
        .size_1024x1792()
        .build();
    assert_eq!(req.size, Some(ImageSize::Size1024x1792));
}

#[test]
fn test_clamp_image_count() {
    assert_eq!(clamp_image_count(0), 1);
    assert_eq!(clamp_image_count(5), 5);
    assert_eq!(clamp_image_count(15), 10);
}

#[test]
fn test_image_generation_request_common() {
    let mut req = ImageGenerationRequest {
        model: "dall-e-2".to_string(),
        prompt: "test".to_string(),
        n: None,
        quality: None,
        response_format: None,
        size: None,
        style: None,
        user: None,
    };

    req.set_n(15);
    assert_eq!(req.n, Some(10)); // Should be clamped

    req.set_response_format(ImageResponseFormat::B64Json);
    assert_eq!(req.response_format, Some(ImageResponseFormat::B64Json));

    req.set_size(ImageSize::Size512x512);
    assert_eq!(req.size, Some(ImageSize::Size512x512));

    req.set_user("test_user".to_string());
    assert_eq!(req.user, Some("test_user".to_string()));
}

#[test]
fn test_n_clamping_in_trait() {
    let mut req = ImageGenerationRequest {
        model: "dall-e-2".to_string(),
        prompt: "test".to_string(),
        n: None,
        quality: None,
        response_format: None,
        size: None,
        style: None,
        user: None,
    };

    req.set_n(15); // Should be clamped to 10
    assert_eq!(req.n, Some(10));

    req.set_n(0); // Should be clamped to 1
    assert_eq!(req.n, Some(1));
}

#[test]
fn test_integration_image_generation_request_creation() {
    let req = ImageGenerationRequest::new("dall-e-3", "A beautiful sunset");
    assert_eq!(req.model, "dall-e-3");
    assert_eq!(req.prompt, "A beautiful sunset");
    assert_eq!(req.n, None);
}

#[test]
fn test_integration_image_generation_builder() {
    let req = ImageGenerationBuilder::dall_e_3("Test image")
        .hd_quality()
        .vivid_style()
        .size_1024x1024()
        .b64_json_format()
        .build();

    assert_eq!(req.model, ImageModels::DALL_E_3);
    assert_eq!(req.prompt, "Test image");
    assert_eq!(req.quality, Some(ImageQuality::Hd));
    assert_eq!(req.style, Some(ImageStyle::Vivid));
    assert_eq!(req.size, Some(ImageSize::Size1024x1024));
    assert_eq!(req.response_format, Some(ImageResponseFormat::B64Json));
}

#[test]
fn test_integration_dall_e_3_validation() {
    let mut req = ImageGenerationRequest::new("dall-e-3", "test");

    // DALL-E 3 only supports n=1
    req.n = Some(2);
    assert!(req.validate().is_err());

    req.n = Some(1);
    assert!(req.validate().is_ok());

    // DALL-E 3 doesn't support small sizes
    req.size = Some(ImageSize::Size256x256);
    assert!(req.validate().is_err());

    req.size = Some(ImageSize::Size1024x1024);
    assert!(req.validate().is_ok());
}

#[test]
fn test_integration_dall_e_2_validation() {
    let mut req = ImageGenerationRequest::new("dall-e-2", "test");

    // DALL-E 2 doesn't support quality
    req.quality = Some(ImageQuality::Hd);
    assert!(req.validate().is_err());

    req.quality = None;
    assert!(req.validate().is_ok());

    // DALL-E 2 doesn't support style
    req.style = Some(ImageStyle::Vivid);
    assert!(req.validate().is_err());

    req.style = None;
    assert!(req.validate().is_ok());

    // DALL-E 2 doesn't support large sizes
    req.size = Some(ImageSize::Size1792x1024);
    assert!(req.validate().is_err());

    req.size = Some(ImageSize::Size512x512);
    assert!(req.validate().is_ok());
}

#[test]
fn requests_test_image_generation_request_creation() {
    let req = ImageGenerationRequest {
        model: "dall-e-3".to_string(),
        prompt: "A beautiful sunset".to_string(),
        n: None,
        quality: None,
        response_format: None,
        size: None,
        style: None,
        user: None,
    };
    assert_eq!(req.model, "dall-e-3");
    assert_eq!(req.prompt, "A beautiful sunset");
    assert_eq!(req.n, None);
}

#[test]
fn requests_test_image_edit_request_creation() {
    let req = ImageEditRequest {
        model: "dall-e-2".to_string(),
        image: "image.png".to_string(),
        mask: None,
        prompt: "Add a cat".to_string(),
        n: None,
        response_format: None,
        size: None,
        user: None,
    };
    assert_eq!(req.model, "dall-e-2");
    assert_eq!(req.image, "image.png");
    assert_eq!(req.prompt, "Add a cat");
    assert_eq!(req.mask, None);
}

#[test]
fn requests_test_image_variation_request_creation() {
    let req = ImageVariationRequest {
        model: "dall-e-2".to_string(),
        image: "image.png".to_string(),
        n: None,
        response_format: None,
        size: None,
        user: None,
    };
    assert_eq!(req.model, "dall-e-2");
    assert_eq!(req.image, "image.png");
    assert_eq!(req.n, None);
}

#[test]
fn responses_test_image_data_methods() {
    let image_data = ImageData {
        url: Some("https://example.com/image.png".to_string()),
        b64_json: None,
        revised_prompt: Some("A revised prompt".to_string()),
    };

    assert!(image_data.has_url());
    assert!(!image_data.has_b64_json());
    assert_eq!(image_data.get_url(), Some("https://example.com/image.png"));
    assert_eq!(image_data.get_revised_prompt(), Some("A revised prompt"));
}

#[test]
fn responses_test_image_response_methods() {
    let response = ImageResponse {
        created: 1_234_567_890,
        data: vec![
            ImageData {
                url: Some("https://example.com/image1.png".to_string()),
                b64_json: None,
                revised_prompt: None,
            },
            ImageData {
                url: Some("https://example.com/image2.png".to_string()),
                b64_json: None,
                revised_prompt: None,
            },
        ],
    };

    assert_eq!(response.count(), 2);
    assert!(response.has_urls());
    assert!(!response.has_b64_json());
    assert_eq!(response.get_urls().len(), 2);
    assert!(response.first_image().is_some());
}

#[test]
fn validation_test_dall_e_3_validation() {
    let mut req = create_test_request(models::DALL_E_3);

    // DALL-E 3 only supports n=1
    req.n = Some(2);
    assert!(validate_dall_e_3(&req).is_err());

    req.n = Some(1);
    assert!(validate_dall_e_3(&req).is_ok());

    // DALL-E 3 doesn't support small sizes
    req.size = Some(ImageSize::Size256x256);
    assert!(validate_dall_e_3(&req).is_err());

    req.size = Some(ImageSize::Size1024x1024);
    assert!(validate_dall_e_3(&req).is_ok());
}

#[test]
fn validation_test_dall_e_2_validation() {
    let mut req = create_test_request(models::DALL_E_2);

    // DALL-E 2 doesn't support quality
    req.quality = Some(ImageQuality::Hd);
    assert!(validate_dall_e_2(&req).is_err());

    req.quality = None;
    assert!(validate_dall_e_2(&req).is_ok());

    // DALL-E 2 doesn't support style
    req.style = Some(ImageStyle::Vivid);
    assert!(validate_dall_e_2(&req).is_err());

    req.style = None;
    assert!(validate_dall_e_2(&req).is_ok());

    // DALL-E 2 doesn't support large sizes
    req.size = Some(ImageSize::Size1792x1024);
    assert!(validate_dall_e_2(&req).is_err());

    req.size = Some(ImageSize::Size512x512);
    assert!(validate_dall_e_2(&req).is_ok());
}

#[test]
fn test_validate_request_routing() {
    let dall_e_3_req = create_test_request(models::DALL_E_3);
    assert!(validate_request(&dall_e_3_req).is_ok());

    let dall_e_2_req = create_test_request(models::DALL_E_2);
    assert!(validate_request(&dall_e_2_req).is_ok());

    // Test with invalid parameters
    let mut invalid_dall_e_3 = create_test_request(models::DALL_E_3);
    invalid_dall_e_3.n = Some(2);
    assert!(validate_request(&invalid_dall_e_3).is_err());

    let mut invalid_dall_e_2 = create_test_request(models::DALL_E_2);
    invalid_dall_e_2.quality = Some(ImageQuality::Hd);
    assert!(validate_request(&invalid_dall_e_2).is_err());
}

#[test]
fn test_error_messages() {
    let mut req = create_test_request(models::DALL_E_3);
    req.n = Some(2);

    let result = validate_request(&req);
    assert!(result.is_err());
    assert_eq!(result.unwrap_err(), errors::DALL_E_3_SINGLE_IMAGE);
}

#[test]
fn image_request_builder_trait_setters() {
    let v = ImageRequestBuilder::with_n(ImageVariationRequest::new("dall-e-2", "img.png"), 20);
    assert_eq!(v.n, Some(10));
    assert_eq!(v.image, "img.png");
    let v = ImageRequestBuilder::with_n(v, 0);
    assert_eq!(v.n, Some(1));
    let v = ImageRequestBuilder::with_user(v, "user-1");
    assert_eq!(v.user.as_deref(), Some("user-1"));
    let e = ImageEditRequest::new("dall-e-2", "a.png", "add a hat");
    let e = ImageRequestBuilder::with_size(e, ImageSize::Size512x512);
    let e = ImageRequestBuilder::with_response_format(e, ImageResponseFormat::B64Json);
    let e = ImageRequestBuilder::with_n(e, 4);
    assert_eq!(e.size, Some(ImageSize::Size512x512));
    assert_eq!(e.response_format, Some(ImageResponseFormat::B64Json));
    assert_eq!(e.n, Some(4));
    assert_eq!(e.prompt, "add a hat");
}
