//! # Models API
//!
//! Data structures for the OpenAI Models API that provides information about
//! available models, their capabilities, and permissions; the classification of a
//! model by its ID, and the filters over model lists that build on it.

use vstd::prelude::*;
use crate::text::{contains, contains_seq, has_prefix, starts_with, str_eq};

verus! {

broadcast use vstd::string::group_string_axioms;

/// Represents an `OpenAI` model
#[derive(Debug, Clone)]
pub struct Model {
    /// The model identifier
    pub id: String,
    /// The object type, which is always "model"
    pub object: String,
    /// The Unix timestamp (in seconds) when the model was created
    pub created: u64,
    /// The organization that owns the model
    pub owned_by: String,
    /// The root model (for fine-tuned models)
    pub root: Option<String>,
    /// The parent model (for fine-tuned models)
    pub parent: Option<String>,
    /// Model permissions
    pub permission: Option<Vec<ModelPermission>>,
}

/// Model permission information
#[derive(Debug, Clone)]
pub struct ModelPermission {
    /// Permission identifier
    pub id: String,
    /// The object type, which is always "model_permission"
    pub object: String,
    /// The Unix timestamp when the permission was created
    pub created: u64,
    /// Whether the model can be used to create engines
    pub allow_create_engine: bool,
    /// Whether the model can be used for sampling
    pub allow_sampling: bool,
    /// Whether log probabilities are allowed
    pub allow_logprobs: bool,
    /// Whether search indices are allowed
    pub allow_search_indices: bool,
    /// Whether the model can be viewed
    pub allow_view: bool,
    /// Whether fine-tuning is allowed
    pub allow_fine_tuning: bool,
    /// The organization this permission applies to
    pub organization: Option<String>,
    /// The group this permission applies to
    pub group: Option<String>,
    /// Whether this permission is blocking
    pub is_blocking: Option<bool>,
}

/// Response from listing models
#[derive(Debug, Clone)]
pub struct ListModelsResponse {
    /// The object type, which is always "list"
    pub object: String,
    /// List of available models
    pub data: Vec<Model>,
}

/// Capabilities and characteristics of a model. Prices are kept exactly, in
/// thousandths of a US dollar per million tokens.
#[derive(Debug, Clone)]
pub struct ModelCapabilities {
    /// Maximum number of tokens the model can handle
    pub max_tokens: Option<u32>,
    /// Training data cutoff date
    pub training_cutoff: Option<String>,
    /// Types of completions the model supports
    pub completion_types: Vec<CompletionType>,
    /// Whether the model supports function calling
    pub supports_function_calling: bool,
    /// Whether the model supports vision/image inputs
    pub supports_vision: bool,
    /// Whether the model supports code interpretation
    pub supports_code_interpreter: bool,
    /// Model family/series
    pub family: ModelFamily,
    /// Model tier/performance level
    pub tier: ModelTier,
    /// Input price per 1M tokens, in thousandths of a dollar (5.0 USD is 5000)
    pub input_cost_per_1m_tokens_milli: Option<u64>,
    /// Output price per 1M tokens, in thousandths of a dollar
    pub output_cost_per_1m_tokens_milli: Option<u64>,
}

/// Types of completions a model can perform
#[derive(Debug, Clone, PartialEq, Eq, Structural)]
pub enum CompletionType {
    /// Text completion (legacy)
    Text,
    /// Chat completion
    Chat,
    /// Code completion
    Code,
    /// Image generation
    Image,
    /// Audio processing
    Audio,
    /// Embeddings generation
    Embeddings,
    /// Content moderation
    Moderation,
}

/// Model families/series
#[derive(Debug, Clone, Copy, PartialEq, Eq, Structural, Hash)]
pub enum ModelFamily {
    /// GPT-4 series
    GPT4,
    /// GPT-4 Turbo series
    GPT4Turbo,
    /// GPT-4o series
    GPT4o,
    /// GPT-3.5 series
    GPT35,
    /// DALL-E image generation
    DALLE,
    /// Whisper speech recognition
    Whisper,
    /// Text-to-speech
    TTS,
    /// Text embeddings
    Embeddings,
    /// Content moderation
    Moderation,
    /// Unknown or custom model
    Unknown,
}

/// Model performance/pricing tiers
#[derive(Debug, Clone, PartialEq, Eq, Structural)]
pub enum ModelTier {
    /// Legacy models (deprecated)
    Legacy,
    /// Standard performance models
    Standard,
    /// High-performance premium models
    Premium,
    /// Experimental or preview models
    Experimental,
}

/// The kind of model an ID names, which decides its capabilities
#[derive(Debug, Clone, PartialEq, Eq, Structural)]
pub enum ModelType {
    /// GPT-4o models
    Gpt4o,
    /// GPT-4 Turbo models
    Gpt4Turbo,
    /// GPT-4 models
    Gpt4,
    /// GPT-3.5 Turbo models
    Gpt35,
    /// DALL-E models
    Dalle,
    /// Whisper models
    Whisper,
    /// Text-to-speech models
    Tts,
    /// Embedding models
    Embedding,
    /// Moderation models
    Moderation,
    /// Any other model
    Legacy,
}

// ─── Classification ──────────────────────────────────────────────────────────

/// The model IDs known to be deprecated
pub open spec fn is_deprecated_id(id: Seq<char>) -> bool {
    ||| id == "text-davinci-003"@
    ||| id == "text-davinci-002"@
    ||| id == "text-curie-001"@
    ||| id == "text-babbage-001"@
    ||| id == "text-ada-001"@
    ||| id == "davinci"@
    ||| id == "curie"@
    ||| id == "babbage"@
    ||| id == "ada"@
    ||| id == "gpt-3.5-turbo-0301"@
    ||| id == "gpt-4-0314"@
}

/// IDs of GPT-4 Turbo models
pub open spec fn is_gpt4_turbo_id(id: Seq<char>) -> bool {
    has_prefix(id, "gpt-4-turbo"@) || contains_seq(id, "gpt-4-1106"@) || contains_seq(
        id,
        "gpt-4-0125"@,
    )
}

/// The family a model ID belongs to
pub open spec fn family_of(id: Seq<char>) -> ModelFamily {
    if has_prefix(id, "gpt-4o"@) {
        ModelFamily::GPT4o
    } else if is_gpt4_turbo_id(id) {
        ModelFamily::GPT4Turbo
    } else if has_prefix(id, "gpt-4"@) {
        ModelFamily::GPT4
    } else if has_prefix(id, "gpt-3.5"@) {
        ModelFamily::GPT35
    } else if has_prefix(id, "dall-e"@) {
        ModelFamily::DALLE
    } else if has_prefix(id, "whisper"@) {
        ModelFamily::Whisper
    } else if has_prefix(id, "tts"@) {
        ModelFamily::TTS
    } else if contains_seq(id, "embedding"@) {
        ModelFamily::Embeddings
    } else if contains_seq(id, "moderation"@) {
        ModelFamily::Moderation
    } else {
        ModelFamily::Unknown
    }
}

/// The tier a model ID belongs to
pub open spec fn tier_of(id: Seq<char>) -> ModelTier {
    if is_deprecated_id(id) {
        ModelTier::Legacy
    } else if contains_seq(id, "preview"@) || contains_seq(id, "alpha"@) || contains_seq(
        id,
        "beta"@,
    ) {
        ModelTier::Experimental
    } else if has_prefix(id, "gpt-4"@) {
        ModelTier::Premium
    } else {
        ModelTier::Standard
    }
}

/// The kind of model a model ID names
pub open spec fn model_type_of(id: Seq<char>) -> ModelType {
    if has_prefix(id, "gpt-4o"@) {
        ModelType::Gpt4o
    } else if is_gpt4_turbo_id(id) {
        ModelType::Gpt4Turbo
    } else if has_prefix(id, "gpt-4"@) {
        ModelType::Gpt4
    } else if has_prefix(id, "gpt-3.5-turbo"@) {
        ModelType::Gpt35
    } else if has_prefix(id, "dall-e"@) {
        ModelType::Dalle
    } else if has_prefix(id, "whisper"@) {
        ModelType::Whisper
    } else if has_prefix(id, "tts"@) {
        ModelType::Tts
    } else if contains_seq(id, "embedding"@) {
        ModelType::Embedding
    } else if contains_seq(id, "moderation"@) {
        ModelType::Moderation
    } else {
        ModelType::Legacy
    }
}

/// The completion types a kind of model supports
pub open spec fn completion_types_for(t: ModelType) -> Seq<CompletionType> {
    match t {
        ModelType::Gpt4o | ModelType::Gpt4Turbo | ModelType::Gpt4 | ModelType::Gpt35 => seq![
            CompletionType::Chat,
            CompletionType::Code,
        ],
        ModelType::Dalle => seq![CompletionType::Image],
        ModelType::Whisper | ModelType::Tts => seq![CompletionType::Audio],
        ModelType::Embedding => seq![CompletionType::Embeddings],
        ModelType::Moderation => seq![CompletionType::Moderation],
        ModelType::Legacy => seq![CompletionType::Text],
    }
}

/// The context size of a model
pub open spec fn max_tokens_for(id: Seq<char>) -> Option<u32> {
    match model_type_of(id) {
        ModelType::Gpt4o | ModelType::Gpt4Turbo => Some(128000),
        ModelType::Gpt4 => Some(if contains_seq(id, "32k"@) { 32768 } else { 8192 }),
        ModelType::Gpt35 => Some(if contains_seq(id, "16k"@) { 16385 } else { 4097 }),
        ModelType::Embedding => Some(8191),
        ModelType::Legacy => Some(4097),
        _ => None,
    }
}

/// The training cutoff of a kind of model
pub open spec fn training_cutoff_for(t: ModelType) -> Option<Seq<char>> {
    match t {
        ModelType::Gpt4o => Some("2023-10"@),
        ModelType::Gpt4Turbo => Some("2023-04"@),
        ModelType::Gpt4 | ModelType::Gpt35 | ModelType::Legacy => Some("2021-09"@),
        _ => None,
    }
}

/// Whether a model supports function calling
pub open spec fn function_calling_for(id: Seq<char>) -> bool {
    match model_type_of(id) {
        ModelType::Gpt4o | ModelType::Gpt4Turbo | ModelType::Gpt4 => true,
        ModelType::Gpt35 => !contains_seq(id, "0301"@),
        _ => false,
    }
}

/// Whether a model accepts images
pub open spec fn vision_for(id: Seq<char>) -> bool {
    match model_type_of(id) {
        ModelType::Gpt4o => true,
        ModelType::Gpt4Turbo => contains_seq(id, "vision"@),
        _ => false,
    }
}

/// Whether a kind of model supports the code interpreter
pub open spec fn code_interpreter_for(t: ModelType) -> bool {
    t is Gpt4o || t is Gpt4Turbo
}

/// Input and output prices per 1M tokens, in thousandths of a dollar
pub open spec fn costs_for(t: ModelType) -> (Option<u64>, Option<u64>) {
    match t {
        ModelType::Gpt4o => (Some(5000), Some(15000)),
        ModelType::Gpt4Turbo => (Some(10000), Some(30000)),
        ModelType::Gpt4 => (Some(30000), Some(60000)),
        ModelType::Gpt35 => (Some(500), Some(1500)),
        ModelType::Embedding => (Some(20), None),
        _ => (None, None),
    }
}

fn is_gpt4_turbo(model_id: &str) -> (r: bool)
    ensures
        r == is_gpt4_turbo_id(model_id@),
{
    starts_with(model_id, "gpt-4-turbo") || contains(model_id, "gpt-4-1106") || contains(
        model_id,
        "gpt-4-0125",
    )
}

/// Whether a model ID names a deprecated model
pub fn is_deprecated_model_id(id: &str) -> (r: bool)
    ensures
        r == is_deprecated_id(id@),
{
    str_eq(id, "text-davinci-003") || str_eq(id, "text-davinci-002") || str_eq(
        id,
        "text-curie-001",
    ) || str_eq(id, "text-babbage-001") || str_eq(id, "text-ada-001") || str_eq(id, "davinci")
        || str_eq(id, "curie") || str_eq(id, "babbage") || str_eq(id, "ada") || str_eq(
        id,
        "gpt-3.5-turbo-0301",
    ) || str_eq(id, "gpt-4-0314")
}

impl ModelCapabilities {
    /// These are the capabilities of the model that `id` names
    pub open spec fn describes(self, id: Seq<char>) -> bool {
        &&& self.family == family_of(id)
        &&& self.tier == tier_of(id)
        &&& self.completion_types@ == completion_types_for(model_type_of(id))
        &&& self.max_tokens == max_tokens_for(id)
        &&& match self.training_cutoff {
            Some(t) => training_cutoff_for(model_type_of(id)) == Some(t@),
            None => training_cutoff_for(model_type_of(id)) is None,
        }
        &&& self.supports_function_calling == function_calling_for(id)
        &&& self.supports_vision == vision_for(id)
        &&& self.supports_code_interpreter == code_interpreter_for(model_type_of(id))
        &&& (self.input_cost_per_1m_tokens_milli, self.output_cost_per_1m_tokens_milli) == costs_for(
            model_type_of(id),
        )
    }

    /// Determine the kind of model an ID names
    pub fn determine_model_type(model_id: &str) -> (r: ModelType)
        ensures
            r == model_type_of(model_id@),
    {
        if starts_with(model_id, "gpt-4o") {
            return ModelType::Gpt4o;
        }
        if is_gpt4_turbo(model_id) {
            return ModelType::Gpt4Turbo;
        }
        if starts_with(model_id, "gpt-4") {
            return ModelType::Gpt4;
        }
        if starts_with(model_id, "gpt-3.5-turbo") {
            return ModelType::Gpt35;
        }
        if starts_with(model_id, "dall-e") {
            return ModelType::Dalle;
        }
        if starts_with(model_id, "whisper") {
            return ModelType::Whisper;
        }
        if starts_with(model_id, "tts") {
            return ModelType::Tts;
        }
        if contains(model_id, "embedding") {
            return ModelType::Embedding;
        }
        if contains(model_id, "moderation") {
            return ModelType::Moderation;
        }
        ModelType::Legacy
    }

    /// Classify a model into its family
    pub fn classify_family(model_id: &str) -> (r: ModelFamily)
        ensures
            r == family_of(model_id@),
    {
        if starts_with(model_id, "gpt-4o") {
            ModelFamily::GPT4o
        } else if is_gpt4_turbo(model_id) {
            ModelFamily::GPT4Turbo
        } else if starts_with(model_id, "gpt-4") {
            ModelFamily::GPT4
        } else if starts_with(model_id, "gpt-3.5") {
            ModelFamily::GPT35
        } else if starts_with(model_id, "dall-e") {
            ModelFamily::DALLE
        } else if starts_with(model_id, "whisper") {
            ModelFamily::Whisper
        } else if starts_with(model_id, "tts") {
            ModelFamily::TTS
        } else if contains(model_id, "embedding") {
            ModelFamily::Embeddings
        } else if contains(model_id, "moderation") {
            ModelFamily::Moderation
        } else {
            ModelFamily::Unknown
        }
    }

    /// Classify a model into its tier
    pub fn classify_tier(model_id: &str) -> (r: ModelTier)
        ensures
            r == tier_of(model_id@),
    {
        if is_deprecated_model_id(model_id) {
            ModelTier::Legacy
        } else if contains(model_id, "preview") || contains(model_id, "alpha") || contains(
            model_id,
            "beta",
        ) {
            ModelTier::Experimental
        } else if starts_with(model_id, "gpt-4") {
            ModelTier::Premium
        } else {
            ModelTier::Standard
        }
    }

    /// Get capabilities for a specific model ID
    pub fn from_model_id(model_id: &str) -> (r: Self)
        ensures
            r.describes(model_id@),
    {
        let family = Self::classify_family(model_id);
        let tier = Self::classify_tier(model_id);
        let model_type = Self::determine_model_type(model_id);
        let mut completion_types: Vec<CompletionType> = Vec::new();
        match model_type {
            ModelType::Gpt4o | ModelType::Gpt4Turbo | ModelType::Gpt4 | ModelType::Gpt35 => {
                completion_types.push(CompletionType::Chat);
                completion_types.push(CompletionType::Code);
            },
            ModelType::Dalle => completion_types.push(CompletionType::Image),
            ModelType::Whisper | ModelType::Tts => completion_types.push(CompletionType::Audio),
            ModelType::Embedding => completion_types.push(CompletionType::Embeddings),
            ModelType::Moderation => completion_types.push(CompletionType::Moderation),
            ModelType::Legacy => completion_types.push(CompletionType::Text),
        }
        let max_tokens: Option<u32> = match model_type {
            ModelType::Gpt4o | ModelType::Gpt4Turbo => Some(128000),
            ModelType::Gpt4 => Some(if contains(model_id, "32k") { 32768 } else { 8192 }),
            ModelType::Gpt35 => Some(if contains(model_id, "16k") { 16385 } else { 4097 }),
            ModelType::Embedding => Some(8191),
            ModelType::Legacy => Some(4097),
            _ => None,
        };
        let training_cutoff: Option<String> = match model_type {
            ModelType::Gpt4o => Some(String::from_str("2023-10")),
            ModelType::Gpt4Turbo => Some(String::from_str("2023-04")),
            ModelType::Gpt4 | ModelType::Gpt35 | ModelType::Legacy => Some(
                String::from_str("2021-09"),
            ),
            _ => None,
        };
        let supports_function_calling = match model_type {
            ModelType::Gpt4o | ModelType::Gpt4Turbo | ModelType::Gpt4 => true,
            ModelType::Gpt35 => !contains(model_id, "0301"),
            _ => false,
        };
        let supports_vision = match model_type {
            ModelType::Gpt4o => true,
            ModelType::Gpt4Turbo => contains(model_id, "vision"),
            _ => false,
        };
        let supports_code_interpreter = match model_type {
            ModelType::Gpt4o | ModelType::Gpt4Turbo => true,
            _ => false,
        };
        let (input_cost, output_cost): (Option<u64>, Option<u64>) = match model_type {
            ModelType::Gpt4o => (Some(5000), Some(15000)),
            ModelType::Gpt4Turbo => (Some(10000), Some(30000)),
            ModelType::Gpt4 => (Some(30000), Some(60000)),
            ModelType::Gpt35 => (Some(500), Some(1500)),
            ModelType::Embedding => (Some(20), None),
            _ => (None, None),
        };
        proof {
            assert(completion_types@ =~= completion_types_for(model_type_of(model_id@)));
        }
        Self {
            max_tokens,
            training_cutoff,
            completion_types,
            supports_function_calling,
            supports_vision,
            supports_code_interpreter,
            family,
            tier,
            input_cost_per_1m_tokens_milli: input_cost,
            output_cost_per_1m_tokens_milli: output_cost,
        }
    }
}

impl Model {
    /// Get the capabilities of this model
    pub fn capabilities(&self) -> (r: ModelCapabilities)
        ensures
            r.describes(self.id@),
    {
        ModelCapabilities::from_model_id(self.id.as_str())
    }

    /// Check whether this model supports a completion type
    pub fn supports_completion_type(&self, completion_type: &CompletionType) -> (r: bool)
        ensures
            r == completion_types_for(model_type_of(self.id@)).contains(*completion_type),
    {
        let caps = self.capabilities();
        slice_contains(caps.completion_types.as_slice(), completion_type)
    }

    /// Get the model family
    pub fn family(&self) -> (r: ModelFamily)
        ensures
            r == family_of(self.id@),
    {
        ModelCapabilities::classify_family(self.id.as_str())
    }

    /// Check if the model is deprecated
    pub fn is_deprecated(&self) -> (r: bool)
        ensures
            r == is_deprecated_id(self.id@),
    {
        is_deprecated_model_id(self.id.as_str())
    }

    /// Check if the model is available (not deprecated)
    pub fn is_available(&self) -> (r: bool)
        ensures
            r == !is_deprecated_id(self.id@),
    {
        !self.is_deprecated()
    }
}

/// Whether `s` holds `x`.
fn slice_contains(s: &[CompletionType], x: &CompletionType) -> (r: bool)
    ensures
        r == s@.contains(*x),
{
    let mut i: usize = 0;
    while i < s.len()
        invariant
            i <= s@.len(),
            forall|j: int| 0 <= j < i ==> s@[j] != *x,
        decreases s.len() - i,
    {
        if s[i] == *x {
            return true;
        }
        i += 1;
    }
    false
}

/// Whether some type of `wanted` is among `offered`
pub open spec fn shares_completion_type(
    wanted: Seq<CompletionType>,
    offered: Seq<CompletionType>,
) -> bool {
    exists|k: int| 0 <= k < wanted.len() && offered.contains(#[trigger] wanted[k])
}

/// Whether a model with this ID meets the requirements
pub open spec fn meets_requirements(id: Seq<char>, req: ModelRequirements) -> bool {
    let t = model_type_of(id);
    &&& shares_completion_type(req.completion_types@, completion_types_for(t))
    &&& match (req.min_max_tokens, max_tokens_for(id)) {
        (Some(required), Some(available)) => required <= available,
        _ => true,
    }
    &&& req.requires_function_calling ==> function_calling_for(id)
    &&& req.requires_vision ==> vision_for(id)
    &&& req.requires_code_interpreter ==> code_interpreter_for(t)
    &&& req.exclude_deprecated ==> !is_deprecated_id(id)
}

/// The families of `s` in the order in which they first occur, each once
pub open spec fn families_in_order(s: Seq<Model>) -> Seq<ModelFamily>
    decreases s.len(),
{
    if s.len() == 0 {
        Seq::empty()
    } else {
        let prev = families_in_order(s.drop_last());
        let f = family_of(s.last().id@);
        if prev.contains(f) {
            prev
        } else {
            prev.push(f)
        }
    }
}

/// Whether `m` is preferred over `current` as the latest model of a family: it is
/// not deprecated, and `current` is deprecated or older
pub open spec fn preferred_over(m: Model, current: Model) -> bool {
    !is_deprecated_id(m.id@) && (is_deprecated_id(current.id@) || m.created > current.created)
}

/// The latest model of family `f` in `s`, scanning `s` from the front and replacing
/// the current choice by each model of the family that is preferred over it
pub open spec fn latest_of_family(s: Seq<Model>, f: ModelFamily) -> Option<Model>
    decreases s.len(),
{
    if s.len() == 0 {
        None
    } else {
        let prev = latest_of_family(s.drop_last(), f);
        let m = s.last();
        if family_of(m.id@) != f {
            prev
        } else {
            match prev {
                None => Some(m),
                Some(c) => if preferred_over(m, c) {
                    Some(m)
                } else {
                    Some(c)
                },
            }
        }
    }
}

/// The models of `s` in family `f`, in order
pub open spec fn of_family(s: Seq<Model>, f: ModelFamily) -> Seq<Model> {
    s.filter(|m: Model| family_of(m.id@) == f)
}

proof fn lemma_families_in_order(s: Seq<Model>)
    ensures
        forall|i: int, j: int|
            0 <= i < j < families_in_order(s).len() ==> families_in_order(s)[i]
                != families_in_order(s)[j],
        forall|f: ModelFamily|
            families_in_order(s).contains(f) <==> exists|k: int|
                0 <= k < s.len() && family_of(#[trigger] s[k].id@) == f,
        forall|f: ModelFamily| families_in_order(s).contains(f) <==> latest_of_family(s, f) is Some,
    decreases s.len(),
{
    if s.len() > 0 {
        let t = s.drop_last();
        let prev = families_in_order(t);
        let g = family_of(s.last().id@);
        lemma_families_in_order(t);
        assert forall|f: ModelFamily|
            families_in_order(s).contains(f) <==> (prev.contains(f) || f == g) by {
            if !prev.contains(g) {
                let q = prev.push(g);
                if q.contains(f) {
                    let idx = choose|idx: int| 0 <= idx < q.len() && q[idx] == f;
                    if idx < prev.len() {
                        assert(prev[idx] == f);
                    }
                }
                if prev.contains(f) {
                    let idx = choose|idx: int| 0 <= idx < prev.len() && prev[idx] == f;
                    assert(q[idx] == f);
                }
                assert(q[prev.len() as int] == g);
            }
        }
        assert forall|f: ModelFamily|
            latest_of_family(s, f) is Some <==> (latest_of_family(t, f) is Some || f == g) by {}
        if !prev.contains(g) {
            assert forall|i: int, j: int|
                0 <= i < j < families_in_order(s).len() implies families_in_order(s)[i]
                != families_in_order(s)[j] by {
                if j == prev.len() {
                    assert(families_in_order(s)[i] == prev[i]);
                    if prev[i] == g {
                        assert(prev.contains(g));
                    }
                } else {
                    assert(families_in_order(s)[i] == prev[i]);
                    assert(families_in_order(s)[j] == prev[j]);
                }
            }
        }
        assert forall|f: ModelFamily|
            families_in_order(s).contains(f) <==> exists|k: int|
                0 <= k < s.len() && family_of(#[trigger] s[k].id@) == f by {
            if prev.contains(f) {
                let k = choose|k: int| 0 <= k < t.len() && family_of(#[trigger] t[k].id@) == f;
                assert(s[k] == t[k]);
            }
            if f == g {
                assert(s[s.len() - 1] == s.last());
            }
            if exists|k: int| 0 <= k < s.len() && family_of(#[trigger] s[k].id@) == f {
                let k = choose|k: int| 0 <= k < s.len() && family_of(#[trigger] s[k].id@) == f;
                if k < s.len() - 1 {
                    assert(t[k] == s[k]);
                }
            }
        }
        assert forall|f: ModelFamily|
            families_in_order(s).contains(f) <==> latest_of_family(s, f) is Some by {
            assert(prev.contains(f) <==> latest_of_family(t, f) is Some);
        }
    } else {
        assert forall|f: ModelFamily|
            families_in_order(s).contains(f) <==> latest_of_family(s, f) is Some by {
            assert(families_in_order(s) =~= Seq::<ModelFamily>::empty());
        }
    }
}

/// A model is in the legacy tier exactly when it is deprecated
pub proof fn lemma_legacy_tier_iff_deprecated(id: Seq<char>)
    ensures
        (tier_of(id) == ModelTier::Legacy) == is_deprecated_id(id),
{
}

/// Grouping by family puts each model in the group of its own family: the model's
/// family is among the families listed, and that family's group holds the model
pub proof fn lemma_every_model_grouped(s: Seq<Model>, k: int)
    requires
        0 <= k < s.len(),
    ensures
        families_in_order(s).contains(family_of(s[k].id@)),
        of_family(s, family_of(s[k].id@)).contains(s[k]),
{
    lemma_families_in_order(s);
    let f = family_of(s[k].id@);
    s.lemma_filter_contains(|m: Model| family_of(m.id@) == f, k);
}

/// A family's group holds only models of that family
pub proof fn lemma_group_members_in_family(s: Seq<Model>, f: ModelFamily, i: int)
    requires
        0 <= i < of_family(s, f).len(),
    ensures
        family_of(of_family(s, f)[i].id@) == f,
{
    s.lemma_filter_pred(|m: Model| family_of(m.id@) == f, i);
}

/// The latest model of a family is a model of the list, of that family
pub proof fn lemma_latest_in_list(s: Seq<Model>, f: ModelFamily)
    ensures
        latest_of_family(s, f) matches Some(m) ==> s.contains(m) && family_of(m.id@) == f,
    decreases s.len(),
{
    if s.len() > 0 {
        let t = s.drop_last();
        lemma_latest_in_list(t, f);
        if let Some(m) = latest_of_family(s, f) {
            if m == s.last() {
                assert(s[s.len() - 1] == m);
            } else {
                let k = choose|k: int| 0 <= k < t.len() && t[k] == m;
                assert(s[k] == m);
            }
        }
    }
}

/// Where a family has a model that is not deprecated, its latest model is not
/// deprecated, and no model of the family that is not deprecated was created after it
pub proof fn lemma_latest_is_newest_available(s: Seq<Model>, f: ModelFamily, k: int)
    requires
        0 <= k < s.len(),
        family_of(s[k].id@) == f,
        !is_deprecated_id(s[k].id@),
    ensures
        latest_of_family(s, f) matches Some(c) && !is_deprecated_id(c.id@) && s[k].created
            <= c.created,
    decreases s.len(),
{
    let t = s.drop_last();
    let m = s.last();
    if k < s.len() - 1 {
        assert(t[k] == s[k]);
        lemma_latest_is_newest_available(t, f, k);
    } else {
        assert(s[k] == m);
        if exists|j: int| 0 <= j < t.len() && family_of(t[j].id@) == f && !is_deprecated_id(t[j].id@) {
            let j = choose|j: int| 0 <= j < t.len() && family_of(t[j].id@) == f && !is_deprecated_id(t[j].id@);
            lemma_latest_is_newest_available(t, f, j);
        }
    }
}

/// Whether `s[k]` is the first model of family `f` in `s` that no other model of the
/// family beats: if it is deprecated, no model of `f` comes before it; otherwise every
/// model of `f` before it that is not deprecated was created strictly earlier
pub open spec fn first_of_newest_at(s: Seq<Model>, f: ModelFamily, k: int) -> bool {
    if is_deprecated_id(s[k].id@) {
        forall|j: int| 0 <= j < k ==> family_of(#[trigger] s[j].id@) != f
    } else {
        forall|j: int|
            0 <= j < k && family_of(#[trigger] s[j].id@) == f && !is_deprecated_id(s[j].id@)
                ==> s[j].created < s[k].created
    }
}

proof fn lemma_first_of_newest_prefix(s: Seq<Model>, f: ModelFamily, k: int)
    requires
        s.len() > 0,
        0 <= k < s.len() - 1,
        first_of_newest_at(s.drop_last(), f, k),
    ensures
        first_of_newest_at(s, f, k),
{
    let t = s.drop_last();
    assert forall|j: int| 0 <= j <= k implies s[j] == t[j] by {}
}

/// Among the models of a family, the latest is the first one in the list that no
/// other model beats: where it is not deprecated, every model of the family before
/// it that is not deprecated was created strictly earlier; where it is deprecated,
/// it is the family's first model in the list
pub proof fn lemma_latest_is_first_of_newest(s: Seq<Model>, f: ModelFamily)
    ensures
        latest_of_family(s, f) matches Some(c) ==> exists|k: int|
            0 <= k < s.len() && s[k] == c && first_of_newest_at(s, f, k),
    decreases s.len(),
{
    if s.len() > 0 {
        let t = s.drop_last();
        let x = s.last();
        let n = s.len() - 1;
        lemma_latest_is_first_of_newest(t, f);
        assert(s[n] == x);
        if let Some(c) = latest_of_family(s, f) {
            if family_of(x.id@) == f && c == x && latest_of_family(t, f) is None {
                lemma_families_in_order(t);
                assert forall|j: int| 0 <= j < n implies family_of(#[trigger] s[j].id@) != f by {
                    assert(s[j] == t[j]);
                    if family_of(t[j].id@) == f {
                        assert(exists|k: int| 0 <= k < t.len() && family_of(#[trigger] t[k].id@) == f);
                        assert(families_in_order(t).contains(f));
                    }
                }
                assert(first_of_newest_at(s, f, n));
            } else if family_of(x.id@) == f && latest_of_family(t, f) is Some && preferred_over(x, latest_of_family(t, f).unwrap()) {
                assert forall|j: int|
                    0 <= j < n && family_of(#[trigger] s[j].id@) == f && !is_deprecated_id(s[j].id@)
                    implies s[j].created < s[n].created by {
                    assert(s[j] == t[j]);
                    lemma_latest_is_newest_available(t, f, j);
                }
                assert(first_of_newest_at(s, f, n));
            } else {
                assert(latest_of_family(t, f) == Some(c));
                let k = choose|k: int| 0 <= k < t.len() && t[k] == c && first_of_newest_at(t, f, k);
                lemma_first_of_newest_prefix(s, f, k);
                assert(s[k] == c);
            }
        }
    }
}

/// The total size of the groups of `families` in `s`
pub open spec fn group_sizes_sum(s: Seq<Model>, families: Seq<ModelFamily>) -> nat
    decreases families.len(),
{
    if families.len() == 0 {
        0
    } else {
        group_sizes_sum(s, families.drop_last()) + of_family(s, families.last()).len()
    }
}

/// How many times family `g` occurs in `q`
pub open spec fn family_count(q: Seq<ModelFamily>, g: ModelFamily) -> nat
    decreases q.len(),
{
    if q.len() == 0 {
        0
    } else {
        family_count(q.drop_last(), g) + if q.last() == g { 1nat } else { 0nat }
    }
}

/// Grouping by family leaves no group empty
pub proof fn lemma_groups_nonempty(s: Seq<Model>, i: int)
    requires
        0 <= i < families_in_order(s).len(),
    ensures
        of_family(s, families_in_order(s)[i]).len() > 0,
{
    lemma_families_in_order(s);
    let f = families_in_order(s)[i];
    assert(families_in_order(s).contains(f));
    let k = choose|k: int| 0 <= k < s.len() && family_of(#[trigger] s[k].id@) == f;
    s.lemma_filter_contains(|m: Model| family_of(m.id@) == f, k);
}

proof fn lemma_of_family_push(t: Seq<Model>, x: Model, f: ModelFamily)
    ensures
        of_family(t.push(x), f) == if family_of(x.id@) == f {
            of_family(t, f).push(x)
        } else {
            of_family(t, f)
        },
{
    t.lemma_filter_push(x, |m: Model| family_of(m.id@) == f);
}

/// Adding a model to the list adds one to the total group size for each time its
/// family is listed
proof fn lemma_group_sizes_sum_push(t: Seq<Model>, x: Model, families: Seq<ModelFamily>)
    ensures
        group_sizes_sum(t.push(x), families) == group_sizes_sum(t, families)
            + family_count(families, family_of(x.id@)),
    decreases families.len(),
{
    if families.len() > 0 {
        lemma_group_sizes_sum_push(t, x, families.drop_last());
        lemma_of_family_push(t, x, families.last());
    }
}

/// A sequence without repeats holds a member exactly once
proof fn lemma_distinct_family_count(q: Seq<ModelFamily>, g: ModelFamily)
    requires
        forall|i: int, j: int| 0 <= i < j < q.len() ==> q[i] != q[j],
    ensures
        family_count(q, g) == (if q.contains(g) { 1nat } else { 0nat }),
    decreases q.len(),
{
    if q.len() > 0 {
        let p = q.drop_last();
        lemma_distinct_family_count(p, g);
        if p.contains(g) {
            let i = choose|i: int| 0 <= i < p.len() && p[i] == g;
            assert(q[i] == g);
            assert(q[q.len() - 1] == q.last());
        }
        if q.contains(g) && q.last() != g {
            let i = choose|i: int| 0 <= i < q.len() && q[i] == g;
            assert(p[i] == g);
        }
        if q.last() == g {
            assert(q[q.len() - 1] == g);
        }
    }
}

/// Grouping by family places every model in exactly one group: the group sizes
/// add up to the number of models
pub proof fn lemma_group_sizes_sum(s: Seq<Model>)
    ensures
        group_sizes_sum(s, families_in_order(s)) == s.len(),
    decreases s.len(),
{
    if s.len() > 0 {
        let t = s.drop_last();
        let x = s.last();
        let g = family_of(x.id@);
        assert(t.push(x) =~= s);
        lemma_group_sizes_sum(t);
        lemma_families_in_order(t);
        let prev = families_in_order(t);
        lemma_group_sizes_sum_push(t, x, prev);
        lemma_distinct_family_count(prev, g);
        if !prev.contains(g) {
            assert(of_family(t, g).len() == 0) by {
                if of_family(t, g).len() > 0 {
                    t.lemma_filter_pred(|m: Model| family_of(m.id@) == g, 0);
                    let m = of_family(t, g)[0];
                    assert(of_family(t, g).contains(m));
                    t.lemma_filter_contains_rev(|m: Model| family_of(m.id@) == g, m);
                    let k = choose|k: int| 0 <= k < t.len() && t[k] == m;
                    assert(family_of(t[k].id@) == g);
                }
            }
            lemma_of_family_push(t, x, g);
            assert(families_in_order(s) == prev.push(g));
            assert(families_in_order(s).drop_last() =~= prev);
        }
    }
}

/// The capabilities reported for a model give its context size by the shape of its
/// ID: 128000 tokens for GPT-4o and GPT-4 Turbo, 32768 for a GPT-4 model marked
/// "32k" and 8192 for another, 16385 for a GPT-3.5 Turbo model marked "16k" and 4097
/// for another, 8191 for an embedding model, and none for image, audio and
/// moderation models
pub proof fn lemma_context_size(caps: ModelCapabilities, id: Seq<char>)
    requires
        caps.describes(id),
    ensures
        (model_type_of(id) is Gpt4o || model_type_of(id) is Gpt4Turbo) ==> caps.max_tokens == Some(128000u32),
        model_type_of(id) is Gpt4 ==> caps.max_tokens == Some(
            if contains_seq(id, "32k"@) { 32768u32 } else { 8192u32 },
        ),
        model_type_of(id) is Gpt35 ==> caps.max_tokens == Some(
            if contains_seq(id, "16k"@) { 16385u32 } else { 4097u32 },
        ),
        model_type_of(id) is Embedding ==> caps.max_tokens == Some(8191u32),
        (model_type_of(id) is Dalle || model_type_of(id) is Whisper || model_type_of(id) is Tts
            || model_type_of(id) is Moderation) ==> caps.max_tokens is None,
{
}

/// The capabilities reported for a model follow its kind: vision for GPT-4o, and
/// for GPT-4 Turbo models marked "vision"; function calling for the GPT-4 kinds and
/// for GPT-3.5 Turbo models other than the "0301" snapshot, and for no other kind;
/// the code interpreter for GPT-4o and GPT-4 Turbo only; chat for the GPT kinds
/// only. An ID starting with "gpt-4o" names a GPT-4o model of the GPT-4o family.
pub proof fn lemma_capability_rules(caps: ModelCapabilities, id: Seq<char>)
    requires
        caps.describes(id),
    ensures
        caps.supports_vision <==> (model_type_of(id) is Gpt4o || model_type_of(id) is Gpt4Turbo
            && contains_seq(id, "vision"@)),
        model_type_of(id) is Gpt35 ==> (caps.supports_function_calling <==> !contains_seq(id, "0301"@)),
        (model_type_of(id) is Gpt4o || model_type_of(id) is Gpt4Turbo || model_type_of(id) is Gpt4)
            ==> caps.supports_function_calling,
        !(model_type_of(id) is Gpt4o || model_type_of(id) is Gpt4Turbo || model_type_of(id) is Gpt4
            || model_type_of(id) is Gpt35) ==> !caps.supports_function_calling,
        caps.supports_code_interpreter <==> (model_type_of(id) is Gpt4o || model_type_of(id) is Gpt4Turbo),
        caps.completion_types@.contains(CompletionType::Chat) <==> (model_type_of(id) is Gpt4o
            || model_type_of(id) is Gpt4Turbo || model_type_of(id) is Gpt4 || model_type_of(id) is Gpt35),
        has_prefix(id, "gpt-4o"@) ==> model_type_of(id) is Gpt4o && caps.family is GPT4o,
{
    let c = caps.completion_types@;
    if c.contains(CompletionType::Chat) {
        let k = choose|k: int| 0 <= k < c.len() && c[k] == CompletionType::Chat;
        assert(c[k] == CompletionType::Chat);
    }
    if model_type_of(id) is Gpt4o || model_type_of(id) is Gpt4Turbo || model_type_of(id) is Gpt4
        || model_type_of(id) is Gpt35 {
        assert(c[0] == CompletionType::Chat);
    }
}

/// Every model that `find_suitable_models` returns has each capability the
/// requirements ask for: one of the wanted completion types, a large enough context
/// where a minimum is set and known, function calling, vision and the code
/// interpreter where required, and no deprecation where deprecated models are
/// excluded. A model of the list with all of these is returned.
pub proof fn lemma_suitable_models_have_required_capabilities(
    s: Seq<Model>,
    req: ModelRequirements,
    i: int,
    caps: ModelCapabilities,
)
    requires
        0 <= i < s.filter(|m: Model| meets_requirements(m.id@, req)).len(),
        caps.describes(s.filter(|m: Model| meets_requirements(m.id@, req))[i].id@),
    ensures
        s.contains(s.filter(|m: Model| meets_requirements(m.id@, req))[i]),
        exists|k: int| 0 <= k < req.completion_types@.len() && caps.completion_types@.contains(#[trigger] req.completion_types@[k]),
        req.min_max_tokens is Some && caps.max_tokens is Some ==> req.min_max_tokens.unwrap() <= caps.max_tokens.unwrap(),
        req.requires_function_calling ==> caps.supports_function_calling,
        req.requires_vision ==> caps.supports_vision,
        req.requires_code_interpreter ==> caps.supports_code_interpreter,
        req.exclude_deprecated ==> !is_deprecated_id(s.filter(|m: Model| meets_requirements(m.id@, req))[i].id@),
{
    let pred = |m: Model| meets_requirements(m.id@, req);
    s.lemma_filter_pred(pred, i);
    s.lemma_filter_contains_rev(pred, s.filter(pred)[i]);
    assert(s.filter(pred).contains(s.filter(pred)[i]));
}

/// Requirements for finding suitable models
#[derive(Debug, Clone)]
pub struct ModelRequirements {
    /// Required completion types (any one of them suffices)
    pub completion_types: Vec<CompletionType>,
    /// Minimum context window size
    pub min_max_tokens: Option<u32>,
    /// Whether function calling is required
    pub requires_function_calling: bool,
    /// Whether vision is required
    pub requires_vision: bool,
    /// Whether the code interpreter is required
    pub requires_code_interpreter: bool,
    /// Whether deprecated models are excluded
    pub exclude_deprecated: bool,
}

impl Default for ModelRequirements {
    fn default() -> (r: Self)
        ensures
            r.completion_types@ == seq![CompletionType::Chat],
            r.min_max_tokens is None,
            !r.requires_function_calling,
            !r.requires_vision,
            !r.requires_code_interpreter,
            r.exclude_deprecated,
    {
        ModelRequirements {
            completion_types: vec![CompletionType::Chat],
            min_max_tokens: None,
            requires_function_calling: false,
            requires_vision: false,
            requires_code_interpreter: false,
            exclude_deprecated: true,
        }
    }
}

impl ModelRequirements {
    /// Requirements for basic chat
    pub fn chat() -> (r: Self)
        ensures
            r.completion_types@ == seq![CompletionType::Chat],
            r.min_max_tokens is None,
            !r.requires_function_calling,
            !r.requires_vision,
            !r.requires_code_interpreter,
            r.exclude_deprecated,
    {
        ModelRequirements { completion_types: vec![CompletionType::Chat], ..Default::default() }
    }

    /// Requirements for function calling
    pub fn function_calling() -> (r: Self)
        ensures
            r.completion_types@ == seq![CompletionType::Chat],
            r.min_max_tokens is None,
            r.requires_function_calling,
            !r.requires_vision,
            !r.requires_code_interpreter,
            r.exclude_deprecated,
    {
        ModelRequirements {
            completion_types: vec![CompletionType::Chat],
            requires_function_calling: true,
            ..Default::default()
        }
    }

    /// Requirements for vision tasks
    pub fn vision() -> (r: Self)
        ensures
            r.completion_types@ == seq![CompletionType::Chat],
            r.min_max_tokens is None,
            !r.requires_function_calling,
            r.requires_vision,
            !r.requires_code_interpreter,
            r.exclude_deprecated,
    {
        ModelRequirements {
            completion_types: vec![CompletionType::Chat],
            requires_vision: true,
            ..Default::default()
        }
    }

    /// Requirements for code tasks
    pub fn code() -> (r: Self)
        ensures
            r.completion_types@ == seq![CompletionType::Chat, CompletionType::Code],
            r.min_max_tokens is None,
            !r.requires_function_calling,
            !r.requires_vision,
            r.requires_code_interpreter,
            r.exclude_deprecated,
    {
        ModelRequirements {
            completion_types: vec![CompletionType::Chat, CompletionType::Code],
            requires_code_interpreter: true,
            ..Default::default()
        }
    }

    /// Requirements for tasks that need a large context window
    pub fn high_context(min_tokens: u32) -> (r: Self)
        ensures
            r.completion_types@ == seq![CompletionType::Chat],
            r.min_max_tokens == Some(min_tokens),
            !r.requires_function_calling,
            !r.requires_vision,
            !r.requires_code_interpreter,
            r.exclude_deprecated,
    {
        ModelRequirements {
            completion_types: vec![CompletionType::Chat],
            min_max_tokens: Some(min_tokens),
            ..Default::default()
        }
    }
}

impl ListModelsResponse {
    /// Filter models by family
    pub fn filter_by_family(&self, family: &ModelFamily) -> (r: Vec<&Model>)
        ensures
            r@.map_values(|m: &Model| *m) == self.data@.filter(|m: Model| family_of(m.id@) == *family),
    {
        let ghost pred = |m: Model| family_of(m.id@) == *family;
        let mut r: Vec<&Model> = Vec::new();
        let mut i: usize = 0;
        while i < self.data.len()
            invariant
                i <= self.data@.len(),
                pred == (|m: Model| family_of(m.id@) == *family),
                r@.map_values(|m: &Model| *m) == self.data@.take(i as int).filter(pred),
            decreases self.data.len() - i,
        {
            proof {
                reveal_with_fuel(Seq::<Model>::filter, 1);
                assert(self.data@.take(i + 1).drop_last() =~= self.data@.take(i as int));
            }
            let ghost before = r@;
            let model = &self.data[i];
            if model.family() == *family {
                r.push(model);
                assert(r@.map_values(|m: &Model| *m) =~= before.map_values(|m: &Model| *m).push(
                    self.data@[i as int],
                ));
            }
            i += 1;
        }
        proof {
            assert(self.data@.take(i as int) =~= self.data@);
        }
        r
    }

    /// Filter models by completion type support
    pub fn filter_by_completion_type(&self, completion_type: &CompletionType) -> (r: Vec<&Model>)
        ensures
            r@.map_values(|m: &Model| *m) == self.data@.filter(|m: Model| completion_types_for(model_type_of(m.id@)).contains(*completion_type)),
    {
        let ghost pred = |m: Model| completion_types_for(model_type_of(m.id@)).contains(*completion_type);
        let mut r: Vec<&Model> = Vec::new();
        let mut i: usize = 0;
        while i < self.data.len()
            invariant
                i <= self.data@.len(),
                pred == (|m: Model| completion_types_for(model_type_of(m.id@)).contains(*completion_type)),
                r@.map_values(|m: &Model| *m) == self.data@.take(i as int).filter(pred),
            decreases self.data.len() - i,
        {
            proof {
                reveal_with_fuel(Seq::<Model>::filter, 1);
                assert(self.data@.take(i + 1).drop_last() =~= self.data@.take(i as int));
            }
            let ghost before = r@;
            let model = &self.data[i];
            if model.supports_completion_type(completion_type) {
                r.push(model);
                assert(r@.map_values(|m: &Model| *m) =~= before.map_values(|m: &Model| *m).push(
                    self.data@[i as int],
                ));
            }
            i += 1;
        }
        proof {
            assert(self.data@.take(i as int) =~= self.data@);
        }
        r
    }

    /// Get only available (non-deprecated) models
    pub fn available_models(&self) -> (r: Vec<&Model>)
        ensures
            r@.map_values(|m: &Model| *m) == self.data@.filter(|m: Model| !is_deprecated_id(m.id@)),
    {
        let ghost pred = |m: Model| !is_deprecated_id(m.id@);
        let mut r: Vec<&Model> = Vec::new();
        let mut i: usize = 0;
        while i < self.data.len()
            invariant
                i <= self.data@.len(),
                pred == (|m: Model| !is_deprecated_id(m.id@)),
                r@.map_values(|m: &Model| *m) == self.data@.take(i as int).filter(pred),
            decreases self.data.len() - i,
        {
            proof {
                reveal_with_fuel(Seq::<Model>::filter, 1);
                assert(self.data@.take(i + 1).drop_last() =~= self.data@.take(i as int));
            }
            let ghost before = r@;
            let model = &self.data[i];
            if model.is_available() {
                r.push(model);
                assert(r@.map_values(|m: &Model| *m) =~= before.map_values(|m: &Model| *m).push(
                    self.data@[i as int],
                ));
            }
            i += 1;
        }
        proof {
            assert(self.data@.take(i as int) =~= self.data@);
        }
        r
    }

    /// Find models suitable for the requirements
    pub fn find_suitable_models(&self, requirements: &ModelRequirements) -> (r: Vec<&Model>)
        ensures
            r@.map_values(|m: &Model| *m) == self.data@.filter(|m: Model| meets_requirements(m.id@, *requirements)),
    {
        let ghost pred = |m: Model| meets_requirements(m.id@, *requirements);
        let mut r: Vec<&Model> = Vec::new();
        let mut i: usize = 0;
        while i < self.data.len()
            invariant
                i <= self.data@.len(),
                pred == (|m: Model| meets_requirements(m.id@, *requirements)),
                r@.map_values(|m: &Model| *m) == self.data@.take(i as int).filter(pred),
            decreases self.data.len() - i,
        {
            proof {
                reveal_with_fuel(Seq::<Model>::filter, 1);
                assert(self.data@.take(i + 1).drop_last() =~= self.data@.take(i as int));
            }
            let ghost before = r@;
            let model = &self.data[i];
            if model_meets(model, requirements) {
                r.push(model);
                assert(r@.map_values(|m: &Model| *m) =~= before.map_values(|m: &Model| *m).push(
                    self.data@[i as int],
                ));
            }
            i += 1;
        }
        proof {
            assert(self.data@.take(i as int) =~= self.data@);
        }
        r
    }

    /// The families of the models, in the order in which they first occur
    fn families(&self) -> (r: Vec<ModelFamily>)
        ensures
            r@ == families_in_order(self.data@),
    {
        let mut r: Vec<ModelFamily> = Vec::new();
        let mut i: usize = 0;
        while i < self.data.len()
            invariant
                i <= self.data@.len(),
                r@ == families_in_order(self.data@.take(i as int)),
            decreases self.data.len() - i,
        {
            proof {
                assert(self.data@.take(i + 1).drop_last() =~= self.data@.take(i as int));
            }
            let f = self.data[i].family();
            let mut j: usize = 0;
            let mut seen = false;
            while j < r.len()
                invariant
                    j <= r@.len(),
                    seen == (exists|k: int| 0 <= k < j && r@[k] == f),
                decreases r.len() - j,
            {
                if r[j] == f {
                    seen = true;
                }
                j += 1;
            }
            if !seen {
                r.push(f);
            }
            i += 1;
        }
        proof {
            assert(self.data@.take(i as int) =~= self.data@);
        }
        r
    }

    /// Group the models by family, the families in the order in which they first occur
    pub fn group_by_family(&self) -> (r: Vec<(ModelFamily, Vec<&Model>)>)
        ensures
            r@.len() == families_in_order(self.data@).len(),
            forall|i: int|
                0 <= i < r@.len() ==> {
                    &&& (#[trigger] r@[i]).0 == families_in_order(self.data@)[i]
                    &&& r@[i].1@.map_values(|m: &Model| *m) == of_family(
                        self.data@,
                        families_in_order(self.data@)[i],
                    )
                },
    {
        let families = self.families();
        let mut r: Vec<(ModelFamily, Vec<&Model>)> = Vec::new();
        let mut i: usize = 0;
        while i < families.len()
            invariant
                i <= families@.len(),
                families@ == families_in_order(self.data@),
                r@.len() == i,
                forall|k: int|
                    0 <= k < i ==> {
                        &&& (#[trigger] r@[k]).0 == families@[k]
                        &&& r@[k].1@.map_values(|m: &Model| *m) == of_family(
                            self.data@,
                            families@[k],
                        )
                    },
            decreases families.len() - i,
        {
            let f = families[i];
            let group = self.filter_by_family(&f);
            r.push((f, group));
            i += 1;
        }
        r
    }

    /// The latest model of a family, if the list holds one
    fn latest_in_family(&self, family: &ModelFamily) -> (r: Option<&Model>)
        ensures
            match r {
                Some(m) => latest_of_family(self.data@, *family) == Some(*m),
                None => latest_of_family(self.data@, *family) is None,
            },
    {
        let mut current: Option<&Model> = None;
        let mut i: usize = 0;
        while i < self.data.len()
            invariant
                i <= self.data@.len(),
                match current {
                    Some(m) => latest_of_family(self.data@.take(i as int), *family) == Some(*m),
                    None => latest_of_family(self.data@.take(i as int), *family) is None,
                },
            decreases self.data.len() - i,
        {
            proof {
                assert(self.data@.take(i + 1).drop_last() =~= self.data@.take(i as int));
            }
            let model = &self.data[i];
            if model.family() == *family {
                match current {
                    None => {
                        current = Some(model);
                    },
                    Some(c) => {
                        if !model.is_deprecated() && (c.is_deprecated() || model.created
                            > c.created) {
                            current = Some(model);
                        }
                    },
                }
            }
            i += 1;
        }
        proof {
            assert(self.data@.take(i as int) =~= self.data@);
        }
        current
    }

    /// The latest model of each family, the families in the order in which they first
    /// occur: within a family, a model replaces the one chosen so far when it is not
    /// deprecated and the chosen one is deprecated or older
    pub fn latest_models(&self) -> (r: Vec<(ModelFamily, &Model)>)
        ensures
            r@.len() == families_in_order(self.data@).len(),
            forall|i: int|
                0 <= i < r@.len() ==> {
                    &&& (#[trigger] r@[i]).0 == families_in_order(self.data@)[i]
                    &&& latest_of_family(self.data@, r@[i].0) == Some(*r@[i].1)
                },
    {
        let families = self.families();
        proof {
            lemma_families_in_order(self.data@);
        }
        let mut r: Vec<(ModelFamily, &Model)> = Vec::new();
        let mut i: usize = 0;
        while i < families.len()
            invariant
                i <= families@.len(),
                families@ == families_in_order(self.data@),
                forall|f: ModelFamily|
                    families_in_order(self.data@).contains(f) ==> latest_of_family(
                        self.data@,
                        f,
                    ) is Some,
                r@.len() == i,
                forall|k: int|
                    0 <= k < i ==> {
                        &&& (#[trigger] r@[k]).0 == families@[k]
                        &&& latest_of_family(self.data@, r@[k].0) == Some(*r@[k].1)
                    },
            decreases families.len() - i,
        {
            let f = families[i];
            assert(families@.contains(families@[i as int]));
            match self.latest_in_family(&f) {
                Some(m) => {
                    r.push((f, m));
                },
                None => {},
            }
            i += 1;
        }
        r
    }
}

/// Whether the model meets the requirements
fn model_meets(model: &Model, requirements: &ModelRequirements) -> (r: bool)
    ensures
        r == meets_requirements(model.id@, *requirements),
{
    let caps = model.capabilities();
    let wanted = &requirements.completion_types;
    let mut shared = false;
    let mut k: usize = 0;
    while k < wanted.len()
        invariant
            k <= wanted@.len(),
            caps.completion_types@ == completion_types_for(model_type_of(model.id@)),
            shared == exists|j: int| 0 <= j < k && caps.completion_types@.contains(#[trigger] wanted@[j]),
        decreases wanted.len() - k,
    {
        if slice_contains(caps.completion_types.as_slice(), &wanted[k]) {
            shared = true;
        }
        k += 1;
    }
    if !shared {
        return false;
    }
    match (requirements.min_max_tokens, caps.max_tokens) {
        (Some(required), Some(available)) => {
            if available < required {
                return false;
            }
        },
        _ => {},
    }
    if requirements.requires_function_calling && !caps.supports_function_calling {
        return false;
    }
    if requirements.requires_vision && !caps.supports_vision {
        return false;
    }
    if requirements.requires_code_interpreter && !caps.supports_code_interpreter {
        return false;
    }
    if requirements.exclude_deprecated && model.is_deprecated() {
        return false;
    }
    true
}

} // verus!
