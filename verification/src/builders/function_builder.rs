//! Builder for function definitions, and builders of common function shapes

use vstd::prelude::*;
use crate::error::{OpenAIError, Result};
use crate::models::functions::{FunctionTool, Tool};
use crate::schema::builder::{schema_json, SchemaBuilder, SchemaType, SchemaView, strings_view};
use crate::text::opt_chars;

verus! {

broadcast use vstd::string::group_string_axioms;

/// The message when a function has no name
pub const NAME_REQUIRED: &'static str = "Function name is required";

/// The message when a function has no description
pub const DESCRIPTION_REQUIRED: &'static str = "Function description is required";

/// Builder for function definitions
#[derive(Debug, Clone)]
pub struct FunctionBuilder {
    name: Option<String>,
    description: Option<String>,
    schema_builder: SchemaBuilder,
    strict: Option<bool>,
}

/// What a function builder holds
pub struct FunctionBuilderView {
    /// The function's name, once set
    pub name: Option<Seq<char>>,
    /// The function's description, once set
    pub description: Option<Seq<char>>,
    /// The schema of the parameters
    pub parameters: SchemaView,
    /// Whether the function is strict, once set
    pub strict: Option<bool>,
}

impl View for FunctionBuilder {
    type V = FunctionBuilderView;

    closed spec fn view(&self) -> FunctionBuilderView {
        FunctionBuilderView {
            name: opt_chars(self.name),
            description: opt_chars(self.description),
            parameters: self.schema_builder@,
            strict: self.strict,
        }
    }
}

/// A schema with nothing but its type and description
pub open spec fn described(t: SchemaType, d: Seq<char>) -> SchemaView {
    SchemaView {
        schema_type: t,
        description: Some(d),
        enum_values: None,
        items: None,
        properties: Seq::empty(),
        required: Seq::empty(),
    }
}

/// `v` with a required property added
pub open spec fn with_required(v: SchemaView, name: Seq<char>, schema: SchemaView) -> SchemaView {
    SchemaView {
        properties: v.properties.push((name, schema_json(schema))),
        required: v.required.push(name),
        ..v
    }
}

/// `v` with an optional property added
pub open spec fn with_optional(v: SchemaView, name: Seq<char>, schema: SchemaView) -> SchemaView {
    SchemaView { properties: v.properties.push((name, schema_json(schema))), ..v }
}

/// An empty object schema
pub open spec fn empty_object() -> SchemaView {
    SchemaView {
        schema_type: SchemaType::Object,
        description: None,
        enum_values: None,
        items: None,
        properties: Seq::empty(),
        required: Seq::empty(),
    }
}

impl Default for FunctionBuilder {
    fn default() -> (r: Self)
        ensures
            r@.name is None,
            r@.description is None,
            r@.parameters == empty_object(),
            r@.strict is None,
    {
        FunctionBuilder::new()
    }
}

impl FunctionBuilder {
    /// Create a builder with no name, no description and no parameters
    pub fn new() -> (r: Self)
        ensures
            r@.name is None,
            r@.description is None,
            r@.parameters == empty_object(),
            r@.strict is None,
    {
        FunctionBuilder {
            name: None,
            description: None,
            schema_builder: SchemaBuilder::new_object(),
            strict: None,
        }
    }

    /// Set the function name
    pub fn name(self, name: &str) -> (r: Self)
        ensures
            r@ == (FunctionBuilderView { name: Some(name@), ..self@ }),
    {
        FunctionBuilder { name: Some(name.to_string()), ..self }
    }

    /// Set the function description
    pub fn description(self, description: &str) -> (r: Self)
        ensures
            r@ == (FunctionBuilderView { description: Some(description@), ..self@ }),
    {
        FunctionBuilder { description: Some(description.to_string()), ..self }
    }

    /// Set whether the function is strict
    pub fn strict(self, strict: bool) -> (r: Self)
        ensures
            r@ == (FunctionBuilderView { strict: Some(strict), ..self@ }),
    {
        FunctionBuilder { strict: Some(strict), ..self }
    }

    /// Add a required parameter with its schema
    pub fn required_parameter(self, name: &str, schema: SchemaBuilder) -> (r: Self)
        ensures
            r@ == (FunctionBuilderView {
                parameters: with_required(self@.parameters, name@, schema@),
                ..self@
            }),
    {
        let FunctionBuilder { name: n, description, schema_builder, strict } = self;
        FunctionBuilder {
            name: n,
            description,
            schema_builder: schema_builder.required_property(name, schema),
            strict,
        }
    }

    /// Add an optional parameter with its schema
    pub fn optional_parameter(self, name: &str, schema: SchemaBuilder) -> (r: Self)
        ensures
            r@ == (FunctionBuilderView {
                parameters: with_optional(self@.parameters, name@, schema@),
                ..self@
            }),
    {
        let FunctionBuilder { name: n, description, schema_builder, strict } = self;
        FunctionBuilder {
            name: n,
            description,
            schema_builder: schema_builder.optional_property(name, schema),
            strict,
        }
    }

    /// Add a required string parameter
    pub fn required_string(self, name: &str, description: &str) -> (r: Self)
        ensures
            r@ == (FunctionBuilderView {
                parameters: with_required(
                    self@.parameters,
                    name@,
                    described(SchemaType::String, description@),
                ),
                ..self@
            }),
    {
        self.required_parameter(name, SchemaBuilder::string().description(description))
    }

    /// Add an optional string parameter
    pub fn optional_string(self, name: &str, description: &str) -> (r: Self)
        ensures
            r@ == (FunctionBuilderView {
                parameters: with_optional(
                    self@.parameters,
                    name@,
                    described(SchemaType::String, description@),
                ),
                ..self@
            }),
    {
        self.optional_parameter(name, SchemaBuilder::string().description(description))
    }

    /// Add a required number parameter
    pub fn required_number(self, name: &str, description: &str) -> (r: Self)
        ensures
            r@ == (FunctionBuilderView {
                parameters: with_required(
                    self@.parameters,
                    name@,
                    described(SchemaType::Number, description@),
                ),
                ..self@
            }),
    {
        self.required_parameter(name, SchemaBuilder::number().description(description))
    }

    /// Add an optional number parameter
    pub fn optional_number(self, name: &str, description: &str) -> (r: Self)
        ensures
            r@ == (FunctionBuilderView {
                parameters: with_optional(
                    self@.parameters,
                    name@,
                    described(SchemaType::Number, description@),
                ),
                ..self@
            }),
    {
        self.optional_parameter(name, SchemaBuilder::number().description(description))
    }

    /// Add a required integer parameter
    pub fn required_integer(self, name: &str, description: &str) -> (r: Self)
        ensures
            r@ == (FunctionBuilderView {
                parameters: with_required(
                    self@.parameters,
                    name@,
                    described(SchemaType::Integer, description@),
                ),
                ..self@
            }),
    {
        self.required_parameter(name, SchemaBuilder::integer().description(description))
    }

    /// Add an optional integer parameter
    pub fn optional_integer(self, name: &str, description: &str) -> (r: Self)
        ensures
            r@ == (FunctionBuilderView {
                parameters: with_optional(
                    self@.parameters,
                    name@,
                    described(SchemaType::Integer, description@),
                ),
                ..self@
            }),
    {
        self.optional_parameter(name, SchemaBuilder::integer().description(description))
    }

    /// Add a required boolean parameter
    pub fn required_boolean(self, name: &str, description: &str) -> (r: Self)
        ensures
            r@ == (FunctionBuilderView {
                parameters: with_required(
                    self@.parameters,
                    name@,
                    described(SchemaType::Boolean, description@),
                ),
                ..self@
            }),
    {
        self.required_parameter(name, SchemaBuilder::boolean().description(description))
    }

    /// Add an optional boolean parameter
    pub fn optional_boolean(self, name: &str, description: &str) -> (r: Self)
        ensures
            r@ == (FunctionBuilderView {
                parameters: with_optional(
                    self@.parameters,
                    name@,
                    described(SchemaType::Boolean, description@),
                ),
                ..self@
            }),
    {
        self.optional_parameter(name, SchemaBuilder::boolean().description(description))
    }

    /// Add a required array parameter whose items follow `item_schema`
    pub fn required_array(self, name: &str, description: &str, item_schema: SchemaBuilder) -> (r:
        Self)
        ensures
            r@ == (FunctionBuilderView {
                parameters: with_required(
                    self@.parameters,
                    name@,
                    SchemaView {
                        items: Some(schema_json(item_schema@)),
                        ..described(SchemaType::Array, description@)
                    },
                ),
                ..self@
            }),
    {
        self.required_parameter(name, SchemaBuilder::array(item_schema).description(description))
    }

    /// Add an optional array parameter whose items follow `item_schema`
    pub fn optional_array(self, name: &str, description: &str, item_schema: SchemaBuilder) -> (r:
        Self)
        ensures
            r@ == (FunctionBuilderView {
                parameters: with_optional(
                    self@.parameters,
                    name@,
                    SchemaView {
                        items: Some(schema_json(item_schema@)),
                        ..described(SchemaType::Array, description@)
                    },
                ),
                ..self@
            }),
    {
        self.optional_parameter(name, SchemaBuilder::array(item_schema).description(description))
    }

    /// Add a required object parameter
    pub fn required_object(self, name: &str, description: &str, object_schema: SchemaBuilder) -> (r:
        Self)
        ensures
            r@ == (FunctionBuilderView {
                parameters: with_required(
                    self@.parameters,
                    name@,
                    SchemaView { description: Some(description@), ..object_schema@ },
                ),
                ..self@
            }),
    {
        self.required_parameter(name, object_schema.description(description))
    }

    /// Add an optional object parameter
    pub fn optional_object(self, name: &str, description: &str, object_schema: SchemaBuilder) -> (r:
        Self)
        ensures
            r@ == (FunctionBuilderView {
                parameters: with_optional(
                    self@.parameters,
                    name@,
                    SchemaView { description: Some(description@), ..object_schema@ },
                ),
                ..self@
            }),
    {
        self.optional_parameter(name, object_schema.description(description))
    }

    /// Add a required string parameter that takes one of `values`
    pub fn required_enum(self, name: &str, description: &str, values: Vec<String>) -> (r: Self)
        ensures
            r@ == (FunctionBuilderView {
                parameters: with_required(
                    self@.parameters,
                    name@,
                    SchemaView {
                        enum_values: Some(strings_view(values@)),
                        ..described(SchemaType::String, description@)
                    },
                ),
                ..self@
            }),
    {
        self.required_parameter(name, SchemaBuilder::string_enum(values).description(description))
    }

    /// Add an optional string parameter that takes one of `values`
    pub fn optional_enum(self, name: &str, description: &str, values: Vec<String>) -> (r: Self)
        ensures
            r@ == (FunctionBuilderView {
                parameters: with_optional(
                    self@.parameters,
                    name@,
                    SchemaView {
                        enum_values: Some(strings_view(values@)),
                        ..described(SchemaType::String, description@)
                    },
                ),
                ..self@
            }),
    {
        self.optional_parameter(name, SchemaBuilder::string_enum(values).description(description))
    }

    /// Build the function definition: it needs a name and a description
    pub fn build(self) -> (r: Result<FunctionTool>)
        ensures
            match r {
                Ok(f) => {
                    &&& self@.name == Some(f.name@)
                    &&& self@.description == Some(f.description@)
                    &&& f.parameters@ == schema_json(self@.parameters)
                    &&& f.strict == self@.strict
                },
                Err(e) => match self@.name {
                    None => e is InvalidRequest && e->InvalidRequest_0@ == NAME_REQUIRED@,
                    Some(_) => self@.description is None && e is InvalidRequest
                        && e->InvalidRequest_0@ == DESCRIPTION_REQUIRED@,
                },
            },
    {
        let ghost v = self@;
        let FunctionBuilder { name, description, schema_builder, strict } = self;
        let name = match name {
            Some(n) => n,
            None => {
                return Err(OpenAIError::validation(NAME_REQUIRED));
            },
        };
        let description = match description {
            Some(d) => d,
            None => {
                return Err(OpenAIError::validation(DESCRIPTION_REQUIRED));
            },
        };
        let parameters = schema_builder.build()?;
        let mut function = FunctionTool::new(name.as_str(), description.as_str(), parameters);
        if let Some(s) = strict {
            function = function.with_strict(s);
        }
        Ok(function)
    }

    /// Build the function definition as a tool
    pub fn build_tool(self) -> (r: Result<Tool>)
        ensures
            match r {
                Ok(t) => t matches Tool::Function { function: f } && {
                    &&& self@.name == Some(f.name@)
                    &&& self@.description == Some(f.description@)
                    &&& f.parameters@ == schema_json(self@.parameters)
                    &&& f.strict == self@.strict
                },
                Err(e) => match self@.name {
                    None => e is InvalidRequest && e->InvalidRequest_0@ == NAME_REQUIRED@,
                    Some(_) => self@.description is None && e is InvalidRequest
                        && e->InvalidRequest_0@ == DESCRIPTION_REQUIRED@,
                },
            },
    {
        let f = self.build()?;
        Ok(Tool::function(f))
    }

    /// A function that takes a location
    pub fn location_function(name: &str, description: &str) -> (r: Self)
        ensures
            r@.name == Some(name@),
            r@.description == Some(description@),
            r@.strict is None,
            r@.parameters == with_required(
                empty_object(),
                "location"@,
                described(SchemaType::String, "The location to query"@),
            ),
    {
        Self::new().name(name).description(description).required_string(
            "location",
            "The location to query",
        )
    }

    /// A function that gets the weather of a location, in an optional unit
    pub fn weather_function(name: &str, description: &str) -> (r: Self)
        ensures
            r@.name == Some(name@),
            r@.description == Some(description@),
            r@.strict is None,
            r@.parameters == with_optional(
                with_required(
                    empty_object(),
                    "location"@,
                    described(SchemaType::String, "The location to get weather for"@),
                ),
                "unit"@,
                SchemaView {
                    enum_values: Some(seq!["celsius"@, "fahrenheit"@]),
                    ..described(SchemaType::String, "Temperature unit"@)
                },
            ),
    {
        let mut units: Vec<String> = Vec::new();
        units.push(String::from_str("celsius"));
        units.push(String::from_str("fahrenheit"));
        assert(strings_view(units@) =~= seq!["celsius"@, "fahrenheit"@]);
        Self::new().name(name).description(description).required_string(
            "location",
            "The location to get weather for",
        ).optional_enum("unit", "Temperature unit", units)
    }

    /// A function that searches with a query and an optional limit
    pub fn search_function(name: &str, description: &str) -> (r: Self)
        ensures
            r@.name == Some(name@),
            r@.description == Some(description@),
            r@.strict is None,
            r@.parameters == with_optional(
                with_required(
                    empty_object(),
                    "query"@,
                    described(SchemaType::String, "The search query"@),
                ),
                "limit"@,
                described(SchemaType::Integer, "Maximum number of results"@),
            ),
    {
        Self::new().name(name).description(description).required_string(
            "query",
            "The search query",
        ).optional_integer("limit", "Maximum number of results")
    }

    /// A function that looks up an ID
    pub fn id_function(name: &str, description: &str, id_field: &str) -> (r: Self)
        ensures
            r@.name == Some(name@),
            r@.description == Some(description@),
            r@.strict is None,
            r@.parameters == with_required(
                empty_object(),
                id_field@,
                described(SchemaType::String, "The ID to look up"@),
            ),
    {
        Self::new().name(name).description(description).required_string(
            id_field,
            "The ID to look up",
        )
    }

    /// A function with required and optional string parameters, given as
    /// (name, description) pairs
    pub fn key_value_function(
        name: &str,
        description: &str,
        required_keys: Vec<(String, String)>,
        optional_keys: Vec<(String, String)>,
    ) -> (r: Self)
        ensures
            r@.name == Some(name@),
            r@.description == Some(description@),
            r@.strict is None,
            r@.parameters == string_params(
                string_params(empty_object(), required_keys@, true),
                optional_keys@,
                false,
            ),
    {
        let mut builder = Self::new().name(name).description(description);
        let mut i: usize = 0;
        while i < required_keys.len()
            invariant
                i <= required_keys@.len(),
                builder@.name == Some(name@),
                builder@.description == Some(description@),
                builder@.strict is None,
                builder@.parameters == string_params(
                    empty_object(),
                    required_keys@.take(i as int),
                    true,
                ),
            decreases required_keys.len() - i,
        {
            assert(required_keys@.take(i + 1).drop_last() =~= required_keys@.take(i as int));
            builder = builder.required_string(
                required_keys[i].0.as_str(),
                required_keys[i].1.as_str(),
            );
            i += 1;
        }
        assert(required_keys@.take(i as int) =~= required_keys@);
        let ghost base = builder@.parameters;
        let mut j: usize = 0;
        while j < optional_keys.len()
            invariant
                j <= optional_keys@.len(),
                builder@.name == Some(name@),
                builder@.description == Some(description@),
                builder@.strict is None,
                builder@.parameters == string_params(base, optional_keys@.take(j as int), false),
            decreases optional_keys.len() - j,
        {
            assert(optional_keys@.take(j + 1).drop_last() =~= optional_keys@.take(j as int));
            builder = builder.optional_string(
                optional_keys[j].0.as_str(),
                optional_keys[j].1.as_str(),
            );
            j += 1;
        }
        assert(optional_keys@.take(j as int) =~= optional_keys@);
        builder
    }
}

/// `v` with a string parameter for each (name, description) pair, in order, all
/// required or all optional
pub open spec fn string_params(v: SchemaView, keys: Seq<(String, String)>, required: bool) -> SchemaView
    decreases keys.len(),
{
    if keys.len() == 0 {
        v
    } else {
        let prev = string_params(v, keys.drop_last(), required);
        let k = keys.last();
        if required {
            with_required(prev, k.0@, described(SchemaType::String, k.1@))
        } else {
            with_optional(prev, k.0@, described(SchemaType::String, k.1@))
        }
    }
}

/// Builder for object schemas
#[derive(Debug, Clone)]
pub struct ObjectSchemaBuilder {
    schema_builder: SchemaBuilder,
}

impl View for ObjectSchemaBuilder {
    type V = SchemaView;

    closed spec fn view(&self) -> SchemaView {
        self.schema_builder@
    }
}

impl Default for ObjectSchemaBuilder {
    fn default() -> (r: Self)
        ensures
            r@ == empty_object(),
    {
        ObjectSchemaBuilder::new()
    }
}

impl ObjectSchemaBuilder {
    /// Create a builder for an object without properties
    pub fn new() -> (r: Self)
        ensures
            r@ == empty_object(),
    {
        ObjectSchemaBuilder { schema_builder: SchemaBuilder::new_object() }
    }

    /// Add a required property
    pub fn required_property(self, name: &str, schema: SchemaBuilder) -> (r: Self)
        ensures
            r@ == with_required(self@, name@, schema@),
    {
        ObjectSchemaBuilder { schema_builder: self.schema_builder.required_property(name, schema) }
    }

    /// Add an optional property
    pub fn optional_property(self, name: &str, schema: SchemaBuilder) -> (r: Self)
        ensures
            r@ == with_optional(self@, name@, schema@),
    {
        ObjectSchemaBuilder { schema_builder: self.schema_builder.optional_property(name, schema) }
    }

    /// The schema built
    pub fn build(self) -> (r: SchemaBuilder)
        ensures
            r@ == self@,
    {
        self.schema_builder
    }
}

} // verus!
