//! A builder of JSON Schema values: a schema of a type, with an optional
//! description, allowed values, item schema, and (for objects) properties.

use vstd::prelude::*;
use crate::error::Result;
use crate::json::{json_members_view, json_seq_view, json_view, lemma_json_members_push, lemma_json_seq_view, Json, JsonValue};

verus! {

broadcast use vstd::string::group_string_axioms;

/// The type a schema describes
#[derive(Debug, Clone, Copy, PartialEq, Eq, Structural)]
pub enum SchemaType {
    /// A JSON object
    Object,
    /// A string
    String,
    /// A number
    Number,
    /// An integer
    Integer,
    /// A boolean
    Boolean,
    /// An array
    Array,
}

/// The name of a schema type in JSON Schema
pub open spec fn schema_type_name(t: SchemaType) -> Seq<char> {
    match t {
        SchemaType::Object => "object"@,
        SchemaType::String => "string"@,
        SchemaType::Number => "number"@,
        SchemaType::Integer => "integer"@,
        SchemaType::Boolean => "boolean"@,
        SchemaType::Array => "array"@,
    }
}

fn type_name_str(t: SchemaType) -> (r: &'static str)
    ensures
        r@ == schema_type_name(t),
{
    match t {
        SchemaType::Object => "object",
        SchemaType::String => "string",
        SchemaType::Number => "number",
        SchemaType::Integer => "integer",
        SchemaType::Boolean => "boolean",
        SchemaType::Array => "array",
    }
}

/// Builder of a JSON Schema value
#[derive(Debug, Clone)]
pub struct SchemaBuilder {
    schema_type: SchemaType,
    description: Option<String>,
    enum_values: Option<Vec<String>>,
    items: Option<Box<JsonValue>>,
    properties: Vec<(String, JsonValue)>,
    required: Vec<String>,
}

/// What a schema builder holds
pub struct SchemaView {
    /// The type described
    pub schema_type: SchemaType,
    /// The description
    pub description: Option<Seq<char>>,
    /// The allowed values
    pub enum_values: Option<Seq<Seq<char>>>,
    /// The schema of the items of an array
    pub items: Option<Json>,
    /// The properties of an object, in the order they were added
    pub properties: Seq<(Seq<char>, Json)>,
    /// The names of the required properties, in the order they were added
    pub required: Seq<Seq<char>>,
}

/// Strings as a JSON array of strings
pub open spec fn string_array(s: Seq<Seq<char>>) -> Json {
    Json::Array(s.map_values(|x: Seq<char>| Json::Str(x)))
}

/// The members of the schema object: its type, then its description, allowed
/// values and item schema where present, then, for an object, its properties and the
/// list of the required ones
pub open spec fn schema_members(v: SchemaView) -> Seq<(Seq<char>, Json)> {
    let m1 = seq![("type"@, Json::Str(schema_type_name(v.schema_type)))];
    let m2 = match v.description {
        Some(d) => m1.push(("description"@, Json::Str(d))),
        None => m1,
    };
    let m3 = match v.enum_values {
        Some(e) => m2.push(("enum"@, string_array(e))),
        None => m2,
    };
    let m4 = match v.items {
        Some(i) => m3.push(("items"@, i)),
        None => m3,
    };
    if v.schema_type == SchemaType::Object {
        m4.push(("properties"@, Json::Object(v.properties))).push(
            ("required"@, string_array(v.required)),
        )
    } else {
        m4
    }
}

/// The JSON Schema value a builder produces
pub open spec fn schema_json(v: SchemaView) -> Json {
    Json::Object(schema_members(v))
}

/// Strings taken by their characters
pub open spec fn strings_view(s: Seq<String>) -> Seq<Seq<char>> {
    s.map_values(|x: String| x@)
}

impl View for SchemaBuilder {
    type V = SchemaView;

    closed spec fn view(&self) -> SchemaView {
        SchemaView {
            schema_type: self.schema_type,
            description: match self.description {
                Some(d) => Some(d@),
                None => None,
            },
            enum_values: match self.enum_values {
                Some(e) => Some(strings_view(e@)),
                None => None,
            },
            items: match self.items {
                Some(i) => Some(json_view(*i)),
                None => None,
            },
            properties: json_members_view(self.properties@),
            required: strings_view(self.required@),
        }
    }
}

/// A JSON array of strings
fn string_array_value(values: Vec<String>) -> (r: JsonValue)
    ensures
        r@ == string_array(strings_view(values@)),
{
    let mut out: Vec<JsonValue> = Vec::new();
    let mut rest = values;
    let ghost all = rest@;
    let mut i: usize = 0;
    let n = rest.len();
    let mut src: Vec<String> = Vec::new();
    src.append(&mut rest);
    while i < n
        invariant
            i <= n,
            n == all.len(),
            src@ == all,
            out@.len() == i,
            forall|k: int| 0 <= k < i ==> json_view(#[trigger] out@[k]) == Json::Str(all[k]@),
        decreases n - i,
    {
        let s = src[i].clone();
        out.push(JsonValue::Str(s));
        i += 1;
    }
    proof {
        lemma_json_seq_view(out@);
        assert forall|k: int| 0 <= k < n implies json_seq_view(out@)[k] == strings_view(all).map_values(
            |x: Seq<char>| Json::Str(x),
        )[k] by {
            assert(json_view(out@[k]) == Json::Str(all[k]@));
        }
        assert(json_seq_view(out@) =~= strings_view(all).map_values(|x: Seq<char>| Json::Str(x)));
    }
    JsonValue::Array(out)
}

impl SchemaBuilder {
    /// A schema of a type, with nothing else
    pub fn of_type(schema_type: SchemaType) -> (r: Self)
        ensures
            r@ == (SchemaView {
                schema_type,
                description: None,
                enum_values: None,
                items: None,
                properties: Seq::empty(),
                required: Seq::empty(),
            }),
    {
        let r = SchemaBuilder {
            schema_type,
            description: None,
            enum_values: None,
            items: None,
            properties: Vec::new(),
            required: Vec::new(),
        };
        assert(r@.properties =~= Seq::empty());
        assert(r@.required =~= Seq::empty());
        r
    }

    /// A schema of an object without properties
    pub fn new_object() -> (r: Self)
        ensures
            r@ == (SchemaView {
                schema_type: SchemaType::Object,
                description: None,
                enum_values: None,
                items: None,
                properties: Seq::empty(),
                required: Seq::empty(),
            }),
    {
        Self::of_type(SchemaType::Object)
    }

    /// A schema of a string
    pub fn string() -> (r: Self)
        ensures
            r@ == (SchemaView {
                schema_type: SchemaType::String,
                description: None,
                enum_values: None,
                items: None,
                properties: Seq::empty(),
                required: Seq::empty(),
            }),
    {
        Self::of_type(SchemaType::String)
    }

    /// A schema of a number
    pub fn number() -> (r: Self)
        ensures
            r@ == (SchemaView {
                schema_type: SchemaType::Number,
                description: None,
                enum_values: None,
                items: None,
                properties: Seq::empty(),
                required: Seq::empty(),
            }),
    {
        Self::of_type(SchemaType::Number)
    }

    /// A schema of an integer
    pub fn integer() -> (r: Self)
        ensures
            r@ == (SchemaView {
                schema_type: SchemaType::Integer,
                description: None,
                enum_values: None,
                items: None,
                properties: Seq::empty(),
                required: Seq::empty(),
            }),
    {
        Self::of_type(SchemaType::Integer)
    }

    /// A schema of a boolean
    pub fn boolean() -> (r: Self)
        ensures
            r@ == (SchemaView {
                schema_type: SchemaType::Boolean,
                description: None,
                enum_values: None,
                items: None,
                properties: Seq::empty(),
                required: Seq::empty(),
            }),
    {
        Self::of_type(SchemaType::Boolean)
    }

    /// A schema of an array whose items follow `item_schema`
    pub fn array(item_schema: SchemaBuilder) -> (r: Self)
        ensures
            r@ == (SchemaView {
                schema_type: SchemaType::Array,
                description: None,
                enum_values: None,
                items: Some(schema_json(item_schema@)),
                properties: Seq::empty(),
                required: Seq::empty(),
            }),
    {
        let item = item_schema.build_value();
        let mut r = Self::of_type(SchemaType::Array);
        r.items = Some(Box::new(item));
        r
    }

    /// A schema of a string that takes one of `values`
    pub fn string_enum(values: Vec<String>) -> (r: Self)
        ensures
            r@ == (SchemaView {
                schema_type: SchemaType::String,
                description: None,
                enum_values: Some(strings_view(values@)),
                items: None,
                properties: Seq::empty(),
                required: Seq::empty(),
            }),
    {
        let mut r = Self::of_type(SchemaType::String);
        r.enum_values = Some(values);
        r
    }

    /// Set the description
    pub fn description(self, description: &str) -> (r: Self)
        ensures
            r@ == (SchemaView { description: Some(description@), ..self@ }),
    {
        let mut r = self;
        r.description = Some(description.to_string());
        r
    }

    /// Add a required property
    pub fn required_property(self, name: &str, schema: SchemaBuilder) -> (r: Self)
        ensures
            r@ == (SchemaView {
                properties: self@.properties.push((name@, schema_json(schema@))),
                required: self@.required.push(name@),
                ..self@
            }),
    {
        let value = schema.build_value();
        let mut r = self;
        let ghost p = r.properties@;
        let ghost q = r.required@;
        r.properties.push((name.to_string(), value));
        r.required.push(name.to_string());
        assert(r.properties@.drop_last() =~= p);
        assert(strings_view(r.required@) =~= strings_view(q).push(name@));
        r
    }

    /// Add an optional property
    pub fn optional_property(self, name: &str, schema: SchemaBuilder) -> (r: Self)
        ensures
            r@ == (SchemaView {
                properties: self@.properties.push((name@, schema_json(schema@))),
                ..self@
            }),
    {
        let value = schema.build_value();
        let mut r = self;
        let ghost p = r.properties@;
        r.properties.push((name.to_string(), value));
        assert(r.properties@.drop_last() =~= p);
        r
    }

    /// The JSON Schema value
    fn build_value(self) -> (r: JsonValue)
        ensures
            r@ == schema_json(self@),
    {
        let ghost v = self@;
        let mut members: Vec<(String, JsonValue)> = Vec::new();
        let first = (
            String::from_str("type"),
            JsonValue::Str(String::from_str(type_name_str(self.schema_type))),
        );
        proof {
            lemma_json_members_push(members@, first);
        }
        members.push(first);
        let ghost mut m = seq![("type"@, Json::Str(schema_type_name(v.schema_type)))];
        assert(json_members_view(members@) =~= m);
        if let Some(d) = self.description {
            let x = (String::from_str("description"), JsonValue::Str(d));
            proof {
                lemma_json_members_push(members@, x);
                m = m.push(("description"@, Json::Str(v.description.unwrap())));
            }
            members.push(x);
        }
        if let Some(e) = self.enum_values {
            let x = (String::from_str("enum"), string_array_value(e));
            proof {
                lemma_json_members_push(members@, x);
                m = m.push(("enum"@, string_array(v.enum_values.unwrap())));
            }
            members.push(x);
        }
        if let Some(i) = self.items {
            let x = (String::from_str("items"), *i);
            proof {
                lemma_json_members_push(members@, x);
                m = m.push(("items"@, v.items.unwrap()));
            }
            members.push(x);
        }
        if self.schema_type == SchemaType::Object {
            let x = (String::from_str("properties"), JsonValue::Object(self.properties));
            proof {
                lemma_json_members_push(members@, x);
                m = m.push(("properties"@, Json::Object(v.properties)));
            }
            members.push(x);
            let y = (String::from_str("required"), string_array_value(self.required));
            proof {
                lemma_json_members_push(members@, y);
                m = m.push(("required"@, string_array(v.required)));
            }
            members.push(y);
        }
        assert(json_members_view(members@) == schema_members(v));
        JsonValue::Object(members)
    }

    /// Build the JSON Schema value
    pub fn build(self) -> (r: Result<JsonValue>)
        ensures
            r is Ok && r->Ok_0@ == schema_json(self@),
    {
        Ok(self.build_value())
    }
}

/// The built schema states its type first, under the key "type", by its JSON Schema
/// name: "object", "string", "number", "integer", "boolean" or "array"; no two
/// types share a name
pub proof fn lemma_schema_type_member(v: SchemaView, a: SchemaType, b: SchemaType)
    ensures
        schema_json(v) == Json::Object(schema_members(v)),
        schema_members(v).len() >= 1,
        schema_members(v)[0] == ("type"@, Json::Str(
            match v.schema_type {
                SchemaType::Object => "object"@,
                SchemaType::String => "string"@,
                SchemaType::Number => "number"@,
                SchemaType::Integer => "integer"@,
                SchemaType::Boolean => "boolean"@,
                SchemaType::Array => "array"@,
            },
        )),
        schema_type_name(a) == schema_type_name(b) ==> a == b,
{
    reveal_strlit("object");
    reveal_strlit("string");
    reveal_strlit("number");
    reveal_strlit("integer");
    reveal_strlit("boolean");
    reveal_strlit("array");
    if schema_type_name(a) == schema_type_name(b) && a != b {
        assert(schema_type_name(a)[0] == schema_type_name(b)[0]);
        assert(schema_type_name(a)[1] == schema_type_name(b)[1]);
    }
}

} // verus!
