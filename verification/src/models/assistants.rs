//! # `OpenAI` Assistants API Models
//!
//! Assistants, the requests that create them and the rules those requests must
//! follow, and the parameters of assistant listings.

use vstd::prelude::*;
use crate::builders::macros::require;
use crate::models::functions::FunctionTool;
use crate::text::{decimal, lemma_push_opt_contains, opt_chars, pairs_view, push_opt, str_eq, u64_to_string};

verus! {

broadcast use vstd::string::group_string_axioms;

/// A tool an assistant can use
#[derive(Debug, Clone)]
pub enum AssistantTool {
    /// Runs Python code in a sandbox
    CodeInterpreter,
    /// Searches uploaded files
    Retrieval,
    /// Calls a function
    Function {
        /// The function
        function: FunctionTool,
    },
}

impl AssistantTool {
    /// The code interpreter tool
    pub fn code_interpreter() -> (r: Self)
        ensures
            r is CodeInterpreter,
    {
        AssistantTool::CodeInterpreter
    }

    /// The retrieval tool
    pub fn retrieval() -> (r: Self)
        ensures
            r is Retrieval,
    {
        AssistantTool::Retrieval
    }

    /// A function tool
    pub fn function(function: FunctionTool) -> (r: Self)
        ensures
            r == (AssistantTool::Function { function }),
    {
        AssistantTool::Function { function }
    }

    /// The tool's type name
    pub fn tool_type(&self) -> (r: &'static str)
        ensures
            r@ == match self {
                AssistantTool::CodeInterpreter => "code_interpreter"@,
                AssistantTool::Retrieval => "retrieval"@,
                AssistantTool::Function { .. } => "function"@,
            },
    {
        match self {
            AssistantTool::CodeInterpreter => "code_interpreter",
            AssistantTool::Retrieval => "retrieval",
            AssistantTool::Function { .. } => "function",
        }
    }
}

/// An assistant
#[derive(Debug, Clone)]
pub struct Assistant {
    /// The assistant's identifier
    pub id: String,
    /// The object type, always "assistant"
    pub object: String,
    /// Unix timestamp of creation
    pub created_at: i64,
    /// The assistant's name
    pub name: Option<String>,
    /// The assistant's description
    pub description: Option<String>,
    /// The model it uses
    pub model: String,
    /// Its system instructions
    pub instructions: Option<String>,
    /// The tools it can use
    pub tools: Vec<AssistantTool>,
    /// Files attached to it
    pub file_ids: Vec<String>,
    /// Key-value metadata, keys distinct
    pub metadata: Vec<(String, String)>,
}

/// A request to create or modify an assistant
#[derive(Debug, Clone)]
pub struct AssistantRequest {
    /// The model to use
    pub model: String,
    /// The assistant's name
    pub name: Option<String>,
    /// The assistant's description
    pub description: Option<String>,
    /// System instructions
    pub instructions: Option<String>,
    /// The tools the assistant can use
    pub tools: Vec<AssistantTool>,
    /// Files to attach
    pub file_ids: Vec<String>,
    /// Key-value metadata, keys distinct
    pub metadata: Vec<(String, String)>,
}

/// Longest name, in characters
pub const MAX_NAME_CHARS: usize = 256;
/// Longest description, in characters
pub const MAX_DESCRIPTION_CHARS: usize = 512;
/// Longest instructions, in characters
pub const MAX_INSTRUCTIONS_CHARS: usize = 32768;
/// Most tools
pub const MAX_TOOLS: usize = 128;
/// Most file IDs
pub const MAX_FILE_IDS: usize = 20;
/// Most metadata pairs
pub const MAX_METADATA_PAIRS: usize = 16;
/// Longest metadata key, in characters
pub const MAX_METADATA_KEY_CHARS: usize = 64;
/// Longest metadata value, in characters
pub const MAX_METADATA_VALUE_CHARS: usize = 512;

/// Whether an optional text is longer than `max` characters
pub open spec fn too_long(s: Option<String>, max: usize) -> bool {
    match s {
        Some(t) => t@.len() > max,
        None => false,
    }
}

/// The first offending metadata entry's error: a key longer than 64 characters, or a
/// value longer than 512 characters, checking the entries in order
pub open spec fn metadata_entries_check(m: Seq<(String, String)>) -> Result<(), Seq<char>>
    decreases m.len(),
{
    if m.len() == 0 {
        Ok(())
    } else if m[0].0@.len() > MAX_METADATA_KEY_CHARS {
        Err("Metadata key cannot exceed 64 characters"@)
    } else if m[0].1@.len() > MAX_METADATA_VALUE_CHARS {
        Err("Metadata value cannot exceed 512 characters"@)
    } else {
        metadata_entries_check(m.drop_first())
    }
}

/// The outcome of validating an assistant request: the checks in order, the first
/// that fails giving the error
pub open spec fn assistant_check(r: AssistantRequest) -> Result<(), Seq<char>> {
    if too_long(r.name, MAX_NAME_CHARS) {
        Err("Assistant name cannot exceed 256 characters"@)
    } else if too_long(r.description, MAX_DESCRIPTION_CHARS) {
        Err("Assistant description cannot exceed 512 characters"@)
    } else if too_long(r.instructions, MAX_INSTRUCTIONS_CHARS) {
        Err("Assistant instructions cannot exceed 32768 characters"@)
    } else if r.tools@.len() > MAX_TOOLS {
        Err("Assistant cannot have more than 128 tools"@)
    } else if r.file_ids@.len() > MAX_FILE_IDS {
        Err("Assistant cannot have more than 20 file IDs"@)
    } else if r.metadata@.len() > MAX_METADATA_PAIRS {
        Err("Assistant cannot have more than 16 metadata pairs"@)
    } else {
        metadata_entries_check(r.metadata@)
    }
}

/// A unit result taken by its characters
pub open spec fn check_view(r: Result<(), String>) -> Result<(), Seq<char>> {
    match r {
        Ok(()) => Ok(()),
        Err(e) => Err(e@),
    }
}

/// Whether the keys of `m` are distinct
pub open spec fn distinct_keys(m: Seq<(String, String)>) -> bool {
    forall|i: int, j: int| 0 <= i < j < m.len() ==> m[i].0@ != m[j].0@
}

/// `m` with `key` set to `value`: the value of an existing key is replaced in
/// place, and a new key is added at the end
pub open spec fn metadata_insert(m: Seq<(Seq<char>, Seq<char>)>, key: Seq<char>, value: Seq<char>) -> Seq<(Seq<char>, Seq<char>)> {
    if exists|i: int| 0 <= i < m.len() && (#[trigger] m[i]).0 == key {
        let i = choose|i: int| 0 <= i < m.len() && (#[trigger] m[i]).0 == key;
        m.update(i, (key, value))
    } else {
        m.push((key, value))
    }
}

/// Set `key` to `value` in `metadata`, keeping the keys distinct
pub fn insert_metadata(metadata: &mut Vec<(String, String)>, key: &str, value: &str)
    requires
        distinct_keys(old(metadata)@),
    ensures
        distinct_keys(final(metadata)@),
        pairs_view(final(metadata)@) == metadata_insert(pairs_view(old(metadata)@), key@, value@),
{
    let ghost m = pairs_view(metadata@);
    let mut i: usize = 0;
    while i < metadata.len()
        invariant
            i <= metadata@.len(),
            metadata@ == old(metadata)@,
            distinct_keys(metadata@),
            m == pairs_view(metadata@),
            forall|k: int| 0 <= k < i ==> m[k].0 != key@,
        decreases metadata.len() - i,
    {
        if str_eq(metadata[i].0.as_str(), key) {
            assert(m[i as int].0 == key@);
            let ghost c = choose|c: int| 0 <= c < m.len() && (#[trigger] m[c]).0 == key@;
            assert(c == i) by {
                if c != i {
                    assert(metadata@[c].0@ == metadata@[i as int].0@);
                }
            }
            metadata.set(i, (key.to_string(), value.to_string()));
            assert(pairs_view(metadata@) =~= m.update(i as int, (key@, value@)));
            assert(distinct_keys(metadata@)) by {
                assert forall|a: int, b: int| 0 <= a < b < metadata@.len() implies metadata@[a].0@
                    != metadata@[b].0@ by {
                    assert(old(metadata)@[a].0@ != old(metadata)@[b].0@);
                }
            }
            return;
        }
        i += 1;
    }
    metadata.push((key.to_string(), value.to_string()));
    assert(pairs_view(metadata@) =~= m.push((key@, value@)));
    assert(distinct_keys(metadata@)) by {
        assert forall|a: int, b: int| 0 <= a < b < metadata@.len() implies metadata@[a].0@
            != metadata@[b].0@ by {
            if b == metadata@.len() - 1 {
                assert(m[a].0 != key@);
            } else {
                assert(old(metadata)@[a].0@ != old(metadata)@[b].0@);
            }
        }
    }
}

fn check_length(s: &Option<String>, max: usize, message: &str) -> (r: Result<(), String>)
    ensures
        check_view(r) == if too_long(*s, max) {
            Err(message@)
        } else {
            Ok(())
        },
{
    if let Some(t) = s {
        if t.as_str().unicode_len() > max {
            return Err(message.to_string());
        }
    }
    Ok(())
}

impl AssistantRequest {
    /// A request for a model, with nothing else set
    pub fn new(model: &str) -> (r: Self)
        ensures
            r.model@ == model@,
            r.name is None,
            r.description is None,
            r.instructions is None,
            r.tools@.len() == 0,
            r.file_ids@.len() == 0,
            r.metadata@.len() == 0,
    {
        AssistantRequest {
            model: model.to_string(),
            name: None,
            description: None,
            instructions: None,
            tools: Vec::new(),
            file_ids: Vec::new(),
            metadata: Vec::new(),
        }
    }

    /// Check the request against the API's limits
    pub fn validate(&self) -> (r: Result<(), String>)
        ensures
            check_view(r) == assistant_check(*self),
    {
        self.validate_text_fields()?;
        self.validate_collections()?;
        self.validate_metadata()?;
        Ok(())
    }

    fn validate_text_fields(&self) -> (r: Result<(), String>)
        ensures
            check_view(r) == if too_long(self.name, MAX_NAME_CHARS) {
                Err("Assistant name cannot exceed 256 characters"@)
            } else if too_long(self.description, MAX_DESCRIPTION_CHARS) {
                Err("Assistant description cannot exceed 512 characters"@)
            } else if too_long(self.instructions, MAX_INSTRUCTIONS_CHARS) {
                Err("Assistant instructions cannot exceed 32768 characters"@)
            } else {
                Ok(())
            },
    {
        self.validate_name()?;
        self.validate_description()?;
        self.validate_instructions()?;
        Ok(())
    }

    fn validate_name(&self) -> (r: Result<(), String>)
        ensures
            check_view(r) == if too_long(self.name, MAX_NAME_CHARS) {
                Err("Assistant name cannot exceed 256 characters"@)
            } else {
                Ok(())
            },
    {
        check_length(&self.name, MAX_NAME_CHARS, "Assistant name cannot exceed 256 characters")
    }

    fn validate_description(&self) -> (r: Result<(), String>)
        ensures
            check_view(r) == if too_long(self.description, MAX_DESCRIPTION_CHARS) {
                Err("Assistant description cannot exceed 512 characters"@)
            } else {
                Ok(())
            },
    {
        check_length(
            &self.description,
            MAX_DESCRIPTION_CHARS,
            "Assistant description cannot exceed 512 characters",
        )
    }

    fn validate_instructions(&self) -> (r: Result<(), String>)
        ensures
            check_view(r) == if too_long(self.instructions, MAX_INSTRUCTIONS_CHARS) {
                Err("Assistant instructions cannot exceed 32768 characters"@)
            } else {
                Ok(())
            },
    {
        check_length(
            &self.instructions,
            MAX_INSTRUCTIONS_CHARS,
            "Assistant instructions cannot exceed 32768 characters",
        )
    }

    fn validate_collections(&self) -> (r: Result<(), String>)
        ensures
            check_view(r) == if self.tools@.len() > MAX_TOOLS {
                Err("Assistant cannot have more than 128 tools"@)
            } else if self.file_ids@.len() > MAX_FILE_IDS {
                Err("Assistant cannot have more than 20 file IDs"@)
            } else {
                Ok(())
            },
    {
        self.validate_tools_count()?;
        self.validate_file_ids_count()?;
        Ok(())
    }

    fn validate_tools_count(&self) -> (r: Result<(), String>)
        ensures
            check_view(r) == if self.tools@.len() > MAX_TOOLS {
                Err("Assistant cannot have more than 128 tools"@)
            } else {
                Ok(())
            },
    {
        if self.tools.len() > MAX_TOOLS {
            return Err("Assistant cannot have more than 128 tools".to_string());
        }
        Ok(())
    }

    fn validate_file_ids_count(&self) -> (r: Result<(), String>)
        ensures
            check_view(r) == if self.file_ids@.len() > MAX_FILE_IDS {
                Err("Assistant cannot have more than 20 file IDs"@)
            } else {
                Ok(())
            },
    {
        if self.file_ids.len() > MAX_FILE_IDS {
            return Err("Assistant cannot have more than 20 file IDs".to_string());
        }
        Ok(())
    }

    fn validate_metadata(&self) -> (r: Result<(), String>)
        ensures
            check_view(r) == if self.metadata@.len() > MAX_METADATA_PAIRS {
                Err("Assistant cannot have more than 16 metadata pairs"@)
            } else {
                metadata_entries_check(self.metadata@)
            },
    {
        self.validate_metadata_count()?;
        self.validate_metadata_entries()?;
        Ok(())
    }

    fn validate_metadata_count(&self) -> (r: Result<(), String>)
        ensures
            check_view(r) == if self.metadata@.len() > MAX_METADATA_PAIRS {
                Err("Assistant cannot have more than 16 metadata pairs"@)
            } else {
                Ok(())
            },
    {
        if self.metadata.len() > MAX_METADATA_PAIRS {
            return Err("Assistant cannot have more than 16 metadata pairs".to_string());
        }
        Ok(())
    }

    fn validate_metadata_entries(&self) -> (r: Result<(), String>)
        ensures
            check_view(r) == metadata_entries_check(self.metadata@),
    {
        let ghost m = self.metadata@;
        let mut i: usize = 0;
        assert(m.subrange(0, m.len() as int) =~= m);
        while i < self.metadata.len()
            invariant
                i <= m.len(),
                m == self.metadata@,
                metadata_entries_check(m) == metadata_entries_check(m.subrange(i as int, m.len() as int)),
            decreases self.metadata.len() - i,
        {
            assert(m.subrange(i as int, m.len() as int)[0] == m[i as int]);
            if self.metadata[i].0.as_str().unicode_len() > MAX_METADATA_KEY_CHARS {
                return Err("Metadata key cannot exceed 64 characters".to_string());
            }
            if self.metadata[i].1.as_str().unicode_len() > MAX_METADATA_VALUE_CHARS {
                return Err("Metadata value cannot exceed 512 characters".to_string());
            }
            assert(m.subrange(i as int, m.len() as int).drop_first() =~= m.subrange(i + 1, m.len() as int));
            i += 1;
        }
        Ok(())
    }

    /// A builder for a request
    pub fn builder() -> (r: AssistantRequestBuilder)
        ensures
            r.model is None,
            r.name is None,
            r.description is None,
            r.instructions is None,
            r.tools@.len() == 0,
            r.file_ids@.len() == 0,
            r.metadata@.len() == 0,
    {
        AssistantRequestBuilder::new()
    }
}

/// Builder for assistant requests
#[derive(Debug, Clone)]
pub struct AssistantRequestBuilder {
    /// The model, once set
    pub model: Option<String>,
    /// The name, once set
    pub name: Option<String>,
    /// The description, once set
    pub description: Option<String>,
    /// The instructions, once set
    pub instructions: Option<String>,
    /// The tools added
    pub tools: Vec<AssistantTool>,
    /// The file IDs added
    pub file_ids: Vec<String>,
    /// The metadata, keys distinct
    pub metadata: Vec<(String, String)>,
}

impl Default for AssistantRequestBuilder {
    fn default() -> (r: Self)
        ensures
            r.model is None,
            r.name is None,
            r.description is None,
            r.instructions is None,
            r.tools@.len() == 0,
            r.file_ids@.len() == 0,
            r.metadata@.len() == 0,
    {
        AssistantRequestBuilder {
            model: None,
            name: None,
            description: None,
            instructions: None,
            tools: Vec::new(),
            file_ids: Vec::new(),
            metadata: Vec::new(),
        }
    }
}

impl AssistantRequestBuilder {
    /// An empty builder
    pub fn new() -> (r: Self)
        ensures
            r.model is None,
            r.name is None,
            r.description is None,
            r.instructions is None,
            r.tools@.len() == 0,
            r.file_ids@.len() == 0,
            r.metadata@.len() == 0,
    {
        AssistantRequestBuilder::default()
    }

    /// Set the model
    pub fn model(self, model: &str) -> (r: Self)
        ensures
            r == (AssistantRequestBuilder { model: r.model, ..self }),
            r.model is Some && r.model.unwrap()@ == model@,
    {
        AssistantRequestBuilder { model: Some(model.to_string()), ..self }
    }

    /// Set the name
    pub fn name(self, name: &str) -> (r: Self)
        ensures
            r == (AssistantRequestBuilder { name: r.name, ..self }),
            r.name is Some && r.name.unwrap()@ == name@,
    {
        AssistantRequestBuilder { name: Some(name.to_string()), ..self }
    }

    /// Set the description
    pub fn description(self, description: &str) -> (r: Self)
        ensures
            r == (AssistantRequestBuilder { description: r.description, ..self }),
            r.description is Some && r.description.unwrap()@ == description@,
    {
        AssistantRequestBuilder { description: Some(description.to_string()), ..self }
    }

    /// Set the instructions
    pub fn instructions(self, instructions: &str) -> (r: Self)
        ensures
            r == (AssistantRequestBuilder { instructions: r.instructions, ..self }),
            r.instructions is Some && r.instructions.unwrap()@ == instructions@,
    {
        AssistantRequestBuilder { instructions: Some(instructions.to_string()), ..self }
    }

    /// Add a tool
    pub fn tool(self, tool: AssistantTool) -> (r: Self)
        ensures
            r == (AssistantRequestBuilder { tools: r.tools, ..self }),
            r.tools@ == self.tools@.push(tool),
    {
        let mut r = self;
        r.tools.push(tool);
        r
    }

    /// Add several tools
    pub fn tools(self, tools: Vec<AssistantTool>) -> (r: Self)
        ensures
            r == (AssistantRequestBuilder { tools: r.tools, ..self }),
            r.tools@ == self.tools@ + tools@,
    {
        let mut r = self;
        let mut more = tools;
        r.tools.append(&mut more);
        r
    }

    /// Add a file ID
    pub fn file_id(self, file_id: &str) -> (r: Self)
        ensures
            r == (AssistantRequestBuilder { file_ids: r.file_ids, ..self }),
            r.file_ids@.len() == self.file_ids@.len() + 1,
            r.file_ids@.drop_last() == self.file_ids@,
            r.file_ids@.last()@ == file_id@,
    {
        let mut r = self;
        let ghost before = r.file_ids@;
        r.file_ids.push(file_id.to_string());
        assert(r.file_ids@.drop_last() =~= before);
        r
    }

    /// Add several file IDs
    pub fn file_ids(self, file_ids: Vec<String>) -> (r: Self)
        ensures
            r == (AssistantRequestBuilder { file_ids: r.file_ids, ..self }),
            r.file_ids@ == self.file_ids@ + file_ids@,
    {
        let mut r = self;
        let mut more = file_ids;
        r.file_ids.append(&mut more);
        r
    }

    /// Set a metadata pair, replacing the value of an existing key
    pub fn metadata_pair(self, key: &str, value: &str) -> (r: Self)
        requires
            distinct_keys(self.metadata@),
        ensures
            r == (AssistantRequestBuilder { metadata: r.metadata, ..self }),
            distinct_keys(r.metadata@),
            pairs_view(r.metadata@) == metadata_insert(pairs_view(self.metadata@), key@, value@),
    {
        let mut r = self;
        insert_metadata(&mut r.metadata, key, value);
        r
    }

    /// Replace the metadata
    pub fn metadata(self, metadata: Vec<(String, String)>) -> (r: Self)
        ensures
            r == (AssistantRequestBuilder { metadata, ..self }),
    {
        AssistantRequestBuilder { metadata, ..self }
    }

    /// Build the request: the model is required, and the request must pass
    /// `AssistantRequest::validate`
    pub fn build(self) -> (r: Result<AssistantRequest, String>)
        ensures
            match self.model {
                None => r is Err && r->Err_0@ == "Model is required"@,
                Some(m) => {
                    let req = AssistantRequest {
                        model: m,
                        name: self.name,
                        description: self.description,
                        instructions: self.instructions,
                        tools: self.tools,
                        file_ids: self.file_ids,
                        metadata: self.metadata,
                    };
                    match r {
                        Ok(q) => q == req && assistant_check(req) is Ok,
                        Err(e) => assistant_check(req) == Err::<(), Seq<char>>(e@),
                    }
                },
            },
    {
        let model = require(self.model, "Model is required")?;
        let request = AssistantRequest {
            model,
            name: self.name,
            description: self.description,
            instructions: self.instructions,
            tools: self.tools,
            file_ids: self.file_ids,
            metadata: self.metadata,
        };
        request.validate()?;
        Ok(request)
    }
}

/// A page of assistants
#[derive(Debug, Clone)]
pub struct ListAssistantsResponse {
    /// The object type, always "list"
    pub object: String,
    /// The assistants
    pub data: Vec<Assistant>,
    /// ID of the first assistant
    pub first_id: Option<String>,
    /// ID of the last assistant
    pub last_id: Option<String>,
    /// Whether more assistants follow
    pub has_more: bool,
}

/// Sort order of a listing
#[derive(Debug, Clone, Copy, PartialEq, Eq, Structural)]
pub enum SortOrder {
    /// Ascending
    Asc,
    /// Descending (the default)
    Desc,
}

impl Default for SortOrder {
    fn default() -> (r: Self)
        ensures
            r == SortOrder::Desc,
    {
        SortOrder::Desc
    }
}

/// The name of a sort order in a query
pub open spec fn sort_order_str(o: SortOrder) -> Seq<char> {
    match o {
        SortOrder::Asc => "asc"@,
        SortOrder::Desc => "desc"@,
    }
}

/// The result of deleting an assistant
#[derive(Debug, Clone)]
pub struct DeletionStatus {
    /// The assistant's identifier
    pub id: String,
    /// The object type, always "assistant.deleted"
    pub object: String,
    /// Whether it was deleted
    pub deleted: bool,
}

/// Parameters of an assistant listing
#[derive(Debug, Clone)]
pub struct ListAssistantsParams {
    /// Number of assistants (1 to 100)
    pub limit: Option<u32>,
    /// Sort order by creation time
    pub order: Option<SortOrder>,
    /// Cursor: list after this ID
    pub after: Option<String>,
    /// Cursor: list before this ID
    pub before: Option<String>,
}

/// The query of an assistant listing: limit, order, after and before, each only
/// when set, in that order
pub open spec fn assistants_query(p: ListAssistantsParams) -> Seq<(Seq<char>, Seq<char>)> {
    let q1 = push_opt(
        Seq::empty(),
        "limit"@,
        match p.limit {
            Some(l) => Some(decimal(l as nat)),
            None => None,
        },
    );
    let q2 = push_opt(
        q1,
        "order"@,
        match p.order {
            Some(o) => Some(sort_order_str(o)),
            None => None,
        },
    );
    let q3 = push_opt(q2, "after"@, opt_chars(p.after));
    push_opt(q3, "before"@, opt_chars(p.before))
}

impl Default for ListAssistantsParams {
    fn default() -> (r: Self)
        ensures
            r.limit is None,
            r.order is None,
            r.after is None,
            r.before is None,
    {
        ListAssistantsParams { limit: None, order: None, after: None, before: None }
    }
}

fn order_name(o: SortOrder) -> (r: &'static str)
    ensures
        r@ == sort_order_str(o),
{
    match o {
        SortOrder::Asc => "asc",
        SortOrder::Desc => "desc",
    }
}

impl ListAssistantsParams {
    /// Parameters with nothing set
    pub fn new() -> (r: Self)
        ensures
            r.limit is None,
            r.order is None,
            r.after is None,
            r.before is None,
    {
        ListAssistantsParams::default()
    }

    /// Set the number of assistants, clamped to 1..=100
    pub fn limit(self, limit: u32) -> (r: Self)
        ensures
            r == (ListAssistantsParams {
                limit: Some(
                    if limit < 1 {
                        1
                    } else if limit > 100 {
                        100
                    } else {
                        limit
                    },
                ),
                ..self
            }),
    {
        let clamped = if limit < 1 {
            1
        } else if limit > 100 {
            100
        } else {
            limit
        };
        ListAssistantsParams { limit: Some(clamped), ..self }
    }

    /// Set the sort order
    pub fn order(self, order: SortOrder) -> (r: Self)
        ensures
            r == (ListAssistantsParams { order: Some(order), ..self }),
    {
        ListAssistantsParams { order: Some(order), ..self }
    }

    /// Set the cursor after which to list
    pub fn after(self, after: &str) -> (r: Self)
        ensures
            r == (ListAssistantsParams { after: r.after, ..self }),
            r.after is Some && r.after.unwrap()@ == after@,
    {
        ListAssistantsParams { after: Some(after.to_string()), ..self }
    }

    /// Set the cursor before which to list
    pub fn before(self, before: &str) -> (r: Self)
        ensures
            r == (ListAssistantsParams { before: r.before, ..self }),
            r.before is Some && r.before.unwrap()@ == before@,
    {
        ListAssistantsParams { before: Some(before.to_string()), ..self }
    }

    /// The sort order as its query value
    pub fn order_str(&self) -> (r: Option<&'static str>)
        ensures
            match self.order {
                Some(o) => r is Some && r.unwrap()@ == sort_order_str(o),
                None => r is None,
            },
    {
        match self.order {
            Some(o) => Some(order_name(o)),
            None => None,
        }
    }

    /// The query parameters of the listing
    pub fn to_query_params(&self) -> (r: Vec<(String, String)>)
        ensures
            pairs_view(r@) == assistants_query(*self),
    {
        let mut params: Vec<(String, String)> = Vec::new();
        if let Some(limit) = self.limit {
            params.push((String::from_str("limit"), u64_to_string(limit as u64)));
        }
        if let Some(order) = self.order {
            params.push((String::from_str("order"), String::from_str(order_name(order))));
        }
        if let Some(after) = &self.after {
            params.push((String::from_str("after"), after.clone()));
        }
        if let Some(before) = &self.before {
            params.push((String::from_str("before"), before.clone()));
        }
        proof {
            assert(pairs_view(params@) =~= assistants_query(*self));
        }
        params
    }
}

/// Each query pair of an assistant listing carries the field its key names: the
/// pair ("after", v) is sent exactly when the `after` cursor is v, and likewise for
/// the limit, order and before fields
pub proof fn lemma_assistants_query_fields(p: ListAssistantsParams, v: Seq<char>)
    ensures
        assistants_query(p).contains(("limit"@, v)) <==> (p.limit matches Some(l) && decimal(l as nat) == v),
        assistants_query(p).contains(("order"@, v)) <==> (p.order matches Some(o) && sort_order_str(o) == v),
        assistants_query(p).contains(("after"@, v)) <==> opt_chars(p.after) == Some(v),
        assistants_query(p).contains(("before"@, v)) <==> opt_chars(p.before) == Some(v),
{
    reveal_strlit("after");
    reveal_strlit("before");
    reveal_strlit("limit");
    reveal_strlit("order");
    assert("limit"@.len() == 5 && "limit"@[0] == 'l');
    assert("order"@.len() == 5 && "order"@[0] == 'o');
    assert("after"@.len() == 5 && "after"@[0] == 'a');
    assert("before"@.len() == 6 && "before"@[0] == 'b');
    let o_limit = match p.limit { Some(l) => Some(decimal(l as nat)), None => None };
    let o_order = match p.order { Some(o) => Some(sort_order_str(o)), None => None };
    let q0 = Seq::<(Seq<char>, Seq<char>)>::empty();
    let q1 = push_opt(q0, "limit"@, o_limit);
    let q2 = push_opt(q1, "order"@, o_order);
    let q3 = push_opt(q2, "after"@, opt_chars(p.after));
    let q4 = push_opt(q3, "before"@, opt_chars(p.before));
    lemma_push_opt_contains(q0, "limit"@, o_limit, ("limit"@, v));
    lemma_push_opt_contains(q1, "order"@, o_order, ("limit"@, v));
    lemma_push_opt_contains(q2, "after"@, opt_chars(p.after), ("limit"@, v));
    lemma_push_opt_contains(q3, "before"@, opt_chars(p.before), ("limit"@, v));
    lemma_push_opt_contains(q0, "limit"@, o_limit, ("order"@, v));
    lemma_push_opt_contains(q1, "order"@, o_order, ("order"@, v));
    lemma_push_opt_contains(q2, "after"@, opt_chars(p.after), ("order"@, v));
    lemma_push_opt_contains(q3, "before"@, opt_chars(p.before), ("order"@, v));
    lemma_push_opt_contains(q0, "limit"@, o_limit, ("after"@, v));
    lemma_push_opt_contains(q1, "order"@, o_order, ("after"@, v));
    lemma_push_opt_contains(q2, "after"@, opt_chars(p.after), ("after"@, v));
    lemma_push_opt_contains(q3, "before"@, opt_chars(p.before), ("after"@, v));
    lemma_push_opt_contains(q0, "limit"@, o_limit, ("before"@, v));
    lemma_push_opt_contains(q1, "order"@, o_order, ("before"@, v));
    lemma_push_opt_contains(q2, "after"@, opt_chars(p.after), ("before"@, v));
    lemma_push_opt_contains(q3, "before"@, opt_chars(p.before), ("before"@, v));
    assert(assistants_query(p) == q4);
    assert(!q0.contains(("limit"@, v)));
    assert(!q0.contains(("order"@, v)));
    assert(!q0.contains(("after"@, v)));
    assert(!q0.contains(("before"@, v)));
}

} // verus!
