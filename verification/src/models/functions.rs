//! Function calling: function definitions, custom tools with grammars, the choice
//! of tool, and the calls the model makes and their results.

use vstd::prelude::*;
use crate::json::{json_view, Json, JsonValue};

verus! {

broadcast use vstd::string::group_string_axioms;

/// A function the model may call
#[derive(Debug, Clone)]
pub struct FunctionTool {
    /// The function's name
    pub name: String,
    /// What the function does
    pub description: String,
    /// JSON Schema of the function's parameters
    pub parameters: JsonValue,
    /// Whether the model must follow the schema exactly
    pub strict: Option<bool>,
}

/// A call of a function by the model
#[derive(Debug, Clone)]
pub struct FunctionCall {
    /// Identifier of the call
    pub call_id: String,
    /// Name of the function called
    pub name: String,
    /// The arguments, as JSON text
    pub arguments: String,
}

/// The result of a function call, to send back to the model
#[derive(Debug, Clone)]
pub struct FunctionCallOutput {
    /// Identifier of the call this answers
    pub call_id: String,
    /// The result, as text
    pub output: String,
}

/// A tool the model may use
#[derive(Debug, Clone)]
pub enum Tool {
    /// A function tool
    Function {
        /// The function
        function: FunctionTool,
    },
    /// A custom tool
    Custom {
        /// The custom tool
        custom_tool: CustomTool,
    },
}

/// A tool whose input follows a grammar
#[derive(Debug, Clone)]
pub struct CustomTool {
    /// The tool's name
    pub name: String,
    /// What the tool does
    pub description: String,
    /// The grammar of the tool's input
    pub grammar: Option<Grammar>,
}

/// A grammar that constrains the input of a custom tool
#[derive(Debug, Clone)]
pub enum Grammar {
    /// A Lark grammar
    Lark {
        /// The grammar's definition
        definition: String,
    },
    /// A regular expression
    Regex {
        /// The pattern
        pattern: String,
        /// The pattern's flags
        flags: Option<Vec<String>>,
    },
}

/// Which tools the model may or must use
#[derive(Debug, Clone)]
pub enum ToolChoice {
    /// The model decides
    Auto,
    /// The model must use a tool
    Required,
    /// The model must not use a tool (`"none"`)
    NoTool,
    /// The model must call the named function
    Function {
        /// The tool's kind, always "function"
        tool_type: String,
        /// The function to call
        function: FunctionSelector,
    },
    /// The model may use only these tools
    AllowedTools {
        /// Names of the allowed tools
        allowed_tools: Vec<String>,
    },
}

/// Names a function
#[derive(Debug, Clone)]
pub struct FunctionSelector {
    /// The function's name
    pub name: String,
}

impl FunctionTool {
    /// Create a function definition
    pub fn new(name: &str, description: &str, parameters: JsonValue) -> (r: Self)
        ensures
            r.name@ == name@,
            r.description@ == description@,
            r.parameters@ == parameters@,
            r.strict is None,
    {
        FunctionTool {
            name: name.to_string(),
            description: description.to_string(),
            parameters,
            strict: None,
        }
    }

    /// Set whether the model must follow the schema exactly
    pub fn with_strict(self, strict: bool) -> (r: Self)
        ensures
            r.name == self.name,
            r.description == self.description,
            r.parameters == self.parameters,
            r.strict == Some(strict),
    {
        FunctionTool { strict: Some(strict), ..self }
    }

    /// A function without parameters
    pub fn simple(name: &str, description: &str) -> (r: Self)
        ensures
            r.name@ == name@,
            r.description@ == description@,
            r.parameters@ == Json::Object(
                seq![
                    ("type"@, Json::Str("object"@)),
                    ("properties"@, Json::Object(Seq::empty())),
                    ("required"@, Json::Array(Seq::empty())),
                    ("additionalProperties"@, Json::Bool(false)),
                ],
            ),
            r.strict is None,
    {
        let mut members: Vec<(String, JsonValue)> = Vec::new();
        members.push((String::from_str("type"), JsonValue::Str(String::from_str("object"))));
        members.push((String::from_str("properties"), JsonValue::Object(Vec::new())));
        members.push((String::from_str("required"), JsonValue::Array(Vec::new())));
        members.push((String::from_str("additionalProperties"), JsonValue::Bool(false)));
        let parameters = JsonValue::Object(members);
        proof {
            crate::json::lemma_json_members_view(members@);
            assert(json_view(members@[1].1) =~= Json::Object(Seq::empty()));
            assert(json_view(members@[2].1) =~= Json::Array(Seq::empty()));
            assert(members@.len() == 4);
            assert(members@[0].0@ == "type"@);
            assert(json_view(members@[0].1) == Json::Str("object"@));
            assert(members@[3].0@ == "additionalProperties"@);
            assert(json_view(members@[3].1) == Json::Bool(false));
            assert(crate::json::json_members_view(members@) =~= seq![
                ("type"@, Json::Str("object"@)),
                ("properties"@, Json::Object(Seq::empty())),
                ("required"@, Json::Array(Seq::empty())),
                ("additionalProperties"@, Json::Bool(false)),
            ]);
        }
        Self::new(name, description, parameters)
    }
}

impl Tool {
    /// A function tool
    pub fn function(function: FunctionTool) -> (r: Self)
        ensures
            r == (Tool::Function { function }),
    {
        Tool::Function { function }
    }

    /// A custom tool
    pub fn custom(custom_tool: CustomTool) -> (r: Self)
        ensures
            r == (Tool::Custom { custom_tool }),
    {
        Tool::Custom { custom_tool }
    }

    /// The tool's name
    pub fn name(&self) -> (r: &str)
        ensures
            r@ == match self {
                Tool::Function { function } => function.name@,
                Tool::Custom { custom_tool } => custom_tool.name@,
            },
    {
        match self {
            Tool::Function { function } => function.name.as_str(),
            Tool::Custom { custom_tool } => custom_tool.name.as_str(),
        }
    }

    /// The tool's description
    pub fn description(&self) -> (r: &str)
        ensures
            r@ == match self {
                Tool::Function { function } => function.description@,
                Tool::Custom { custom_tool } => custom_tool.description@,
            },
    {
        match self {
            Tool::Function { function } => function.description.as_str(),
            Tool::Custom { custom_tool } => custom_tool.description.as_str(),
        }
    }
}

impl CustomTool {
    /// A custom tool without a grammar
    pub fn new(name: &str, description: &str) -> (r: Self)
        ensures
            r.name@ == name@,
            r.description@ == description@,
            r.grammar is None,
    {
        CustomTool { name: name.to_string(), description: description.to_string(), grammar: None }
    }

    /// Constrain the input by a Lark grammar
    pub fn with_lark_grammar(self, definition: &str) -> (r: Self)
        ensures
            r.name == self.name,
            r.description == self.description,
            r.grammar matches Some(Grammar::Lark { definition: d }) && d@ == definition@,
    {
        CustomTool { grammar: Some(Grammar::lark(definition)), ..self }
    }

    /// Constrain the input by a regular expression
    pub fn with_regex_grammar(self, pattern: &str, flags: Option<Vec<String>>) -> (r: Self)
        ensures
            r.name == self.name,
            r.description == self.description,
            r.grammar matches Some(Grammar::Regex { pattern: p, flags: f }) && p@ == pattern@
                && f == flags,
    {
        CustomTool { grammar: Some(Grammar::regex(pattern, flags)), ..self }
    }
}

impl Grammar {
    /// A Lark grammar
    pub fn lark(definition: &str) -> (r: Self)
        ensures
            r matches Grammar::Lark { definition: d } && d@ == definition@,
    {
        Grammar::Lark { definition: definition.to_string() }
    }

    /// A regular expression
    pub fn regex(pattern: &str, flags: Option<Vec<String>>) -> (r: Self)
        ensures
            r matches Grammar::Regex { pattern: p, flags: f } && p@ == pattern@ && f == flags,
    {
        Grammar::Regex { pattern: pattern.to_string(), flags }
    }
}

impl ToolChoice {
    /// The model decides
    pub fn auto() -> (r: Self)
        ensures
            r is Auto,
    {
        ToolChoice::Auto
    }

    /// The model must use a tool
    pub fn required() -> (r: Self)
        ensures
            r is Required,
    {
        ToolChoice::Required
    }

    /// The model must not use a tool
    pub fn none() -> (r: Self)
        ensures
            r is NoTool,
    {
        ToolChoice::NoTool
    }

    /// The model must call the named function
    pub fn function(name: &str) -> (r: Self)
        ensures
            r matches ToolChoice::Function { tool_type: t, function: f } && t@ == "function"@
                && f.name@ == name@,
    {
        ToolChoice::Function {
            tool_type: String::from_str("function"),
            function: FunctionSelector { name: name.to_string() },
        }
    }

    /// The model may use only these tools
    pub fn allowed_tools(tools: Vec<String>) -> (r: Self)
        ensures
            r matches ToolChoice::AllowedTools { allowed_tools: a } && a@ == tools@,
    {
        ToolChoice::AllowedTools { allowed_tools: tools }
    }
}

impl FunctionCall {
    /// Create a function call
    pub fn new(call_id: &str, name: &str, arguments: &str) -> (r: Self)
        ensures
            r.call_id@ == call_id@,
            r.name@ == name@,
            r.arguments@ == arguments@,
    {
        FunctionCall {
            call_id: call_id.to_string(),
            name: name.to_string(),
            arguments: arguments.to_string(),
        }
    }
}

impl FunctionCallOutput {
    /// Create a function call output
    pub fn new(call_id: &str, output: &str) -> (r: Self)
        ensures
            r.call_id@ == call_id@,
            r.output@ == output@,
    {
        FunctionCallOutput { call_id: call_id.to_string(), output: output.to_string() }
    }
}

} // verus!
