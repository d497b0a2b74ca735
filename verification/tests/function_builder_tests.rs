//! Function definitions built with the function builder.

use openai_rust_sdk::builders::function_builder::{FunctionBuilder, ObjectSchemaBuilder};
use openai_rust_sdk::schema::builder::SchemaBuilder;

#[test]
fn test_basic_function_builder() {
    let func = FunctionBuilder::new()
        .name("test_function")
        .description("A test function")
        .required_string("param1", "First parameter")
        .optional_number("param2", "Second parameter")
        .build()
        .unwrap();

    assert_eq!(func.name, "test_function");
    assert_eq!(func.description, "A test function");
    assert!(func.strict.is_none());
}

#[test]
fn test_function_builder_with_strict() {
    let func = FunctionBuilder::new()
        .name("strict_function")
        .description("A strict function")
        .strict(true)
        .build()
        .unwrap();

    assert_eq!(func.strict, Some(true));
}

#[test]
fn test_weather_function_pattern() {
    let func = FunctionBuilder::weather_function("get_weather", "Get weather information")
        .build()
        .unwrap();

    assert_eq!(func.name, "get_weather");
    assert_eq!(func.description, "Get weather information");

    // Check that the schema includes location and unit parameters
    let schema = func.parameters;
    assert!(schema.get("properties").is_some());
}

#[test]
fn test_search_function_pattern() {
    let func = FunctionBuilder::search_function("search_docs", "Search documentation")
        .build()
        .unwrap();

    assert_eq!(func.name, "search_docs");
    assert_eq!(func.description, "Search documentation");
}

#[test]
fn test_key_value_function() {
    let func = FunctionBuilder::key_value_function(
        "update_user",
        "Update user information",
        vec![("user_id".to_string(), "User ID".to_string())],
        vec![("name".to_string(), "User name".to_string())],
    )
    .build()
    .unwrap();

    assert_eq!(func.name, "update_user");
    assert_eq!(func.description, "Update user information");
}

#[test]
fn test_enum_parameter() {
    let func = FunctionBuilder::new()
        .name("test_enum")
        .description("Test enum parameter")
        .required_enum(
            "status",
            "Status value",
            vec![
                "active".to_string(),
                "inactive".to_string(),
                "pending".to_string(),
            ],
        )
        .build()
        .unwrap();

    assert_eq!(func.name, "test_enum");
}

#[test]
fn test_nested_object() {
    let address_schema = ObjectSchemaBuilder::new()
        .required_property("street", SchemaBuilder::string())
        .required_property("city", SchemaBuilder::string())
        .optional_property("zip", SchemaBuilder::string())
        .build();

    let func = FunctionBuilder::new()
        .name("update_address")
        .description("Update user address")
        .required_string("user_id", "User ID")
        .required_object("address", "User address", address_schema)
        .build()
        .unwrap();

    assert_eq!(func.name, "update_address");
}

#[test]
fn test_array_parameter() {
    let func = FunctionBuilder::new()
        .name("process_items")
        .description("Process a list of items")
        .required_array("items", "List of items to process", SchemaBuilder::string())
        .build()
        .unwrap();

    assert_eq!(func.name, "process_items");
}

#[test]
fn test_missing_name_validation() {
    let result = FunctionBuilder::new().description("Missing name").build();

    assert!(result.is_err());
}

#[test]
fn test_missing_description_validation() {
    let result = FunctionBuilder::new().name("test").build();

    assert!(result.is_err());
}
