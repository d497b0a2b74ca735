//! GPT-5 model constants and configuration: reasoning, verbosity and prompt cache
//! settings, and the choice of model for a task or a migration.

/// GPT-5 model identifiers
pub mod models;

use vstd::prelude::*;
use crate::json::JsonValue;

verus! {

broadcast use vstd::string::group_string_axioms;

/// How much the model reasons before answering
#[derive(Debug, Clone, Copy, PartialEq, Eq, Structural)]
pub enum ReasoningEffort {
    /// No reasoning (`"none"`)
    NoReasoning,
    /// Minimal reasoning
    Minimal,
    /// Low effort
    Low,
    /// Medium effort (the default)
    Medium,
    /// High effort
    High,
    /// Extra-high effort
    XHigh,
    /// Maximum effort
    Max,
}

impl Default for ReasoningEffort {
    fn default() -> (r: Self)
        ensures
            r == ReasoningEffort::Medium,
    {
        ReasoningEffort::Medium
    }
}

/// How the model reasons
#[derive(Debug, Clone, Copy, PartialEq, Eq, Structural)]
pub enum ReasoningMode {
    /// Standard reasoning
    Standard,
    /// Pro reasoning
    Pro,
}

/// How the reasoning is summarised
#[derive(Debug, Clone, Copy, PartialEq, Eq, Structural)]
pub enum ReasoningSummary {
    /// The model decides
    Auto,
    /// A concise summary
    Concise,
    /// A detailed summary
    Detailed,
}

/// Which turns the reasoning context spans
#[derive(Debug, Clone, Copy, PartialEq, Eq, Structural)]
pub enum ReasoningContext {
    /// The model decides
    Auto,
    /// The current turn only
    CurrentTurn,
    /// All turns
    AllTurns,
}

/// How prompts are cached
#[derive(Debug, Clone, Copy, PartialEq, Eq, Structural)]
pub enum PromptCacheMode {
    /// Caching decided by the service
    Implicit,
    /// Caching requested by the caller
    Explicit,
}

/// How long a cached prompt lives
#[derive(Debug, Clone, Copy, PartialEq, Eq, Structural)]
pub enum PromptCacheTtl {
    /// Thirty minutes (`"30m"`)
    ThirtyMinutes,
}

/// Prompt cache settings
#[derive(Debug, Clone, Copy)]
pub struct PromptCacheOptions {
    /// Lifetime of a cached prompt
    pub ttl: Option<PromptCacheTtl>,
    /// Caching mode
    pub mode: Option<PromptCacheMode>,
}

impl Default for PromptCacheOptions {
    fn default() -> (r: Self)
        ensures
            r.ttl is None,
            r.mode is None,
    {
        PromptCacheOptions { ttl: None, mode: None }
    }
}

/// How long the model's answers are
#[derive(Debug, Clone, Copy, PartialEq, Eq, Structural)]
pub enum Verbosity {
    /// Short answers
    Low,
    /// Medium answers (the default)
    Medium,
    /// Long answers
    High,
}

impl Default for Verbosity {
    fn default() -> (r: Self)
        ensures
            r == Verbosity::Medium,
    {
        Verbosity::Medium
    }
}

/// Reasoning settings
#[derive(Debug, Clone, Copy)]
pub struct ReasoningConfig {
    /// Reasoning mode
    pub mode: Option<ReasoningMode>,
    /// Reasoning effort
    pub effort: Option<ReasoningEffort>,
    /// Reasoning summary
    pub summary: Option<ReasoningSummary>,
    /// Reasoning context
    pub context: Option<ReasoningContext>,
}

impl Default for ReasoningConfig {
    fn default() -> (r: Self)
        ensures
            r.mode is None,
            r.effort is None,
            r.summary is None,
            r.context is None,
    {
        ReasoningConfig { mode: None, effort: None, summary: None, context: None }
    }
}

impl ReasoningConfig {
    /// Settings with an effort and nothing else
    pub fn new(effort: ReasoningEffort) -> (r: Self)
        ensures
            r.mode is None,
            r.effort == Some(effort),
            r.summary is None,
            r.context is None,
    {
        ReasoningConfig { mode: None, effort: Some(effort), summary: None, context: None }
    }

    /// Minimal effort
    pub fn minimal() -> (r: Self)
        ensures
            r == ReasoningConfig::new_spec(ReasoningEffort::Minimal),
    {
        Self::new(ReasoningEffort::Minimal)
    }

    /// Low effort
    pub fn low() -> (r: Self)
        ensures
            r == ReasoningConfig::new_spec(ReasoningEffort::Low),
    {
        Self::new(ReasoningEffort::Low)
    }

    /// Medium effort
    pub fn medium() -> (r: Self)
        ensures
            r == ReasoningConfig::new_spec(ReasoningEffort::Medium),
    {
        Self::new(ReasoningEffort::Medium)
    }

    /// High effort
    pub fn high() -> (r: Self)
        ensures
            r == ReasoningConfig::new_spec(ReasoningEffort::High),
    {
        Self::new(ReasoningEffort::High)
    }

    /// Maximum effort
    pub fn max() -> (r: Self)
        ensures
            r == ReasoningConfig::new_spec(ReasoningEffort::Max),
    {
        Self::new(ReasoningEffort::Max)
    }

    /// The settings `new(effort)` makes
    pub open spec fn new_spec(effort: ReasoningEffort) -> Self {
        ReasoningConfig { mode: None, effort: Some(effort), summary: None, context: None }
    }

    /// Set the mode
    pub fn with_mode(self, mode: ReasoningMode) -> (r: Self)
        ensures
            r == (ReasoningConfig { mode: Some(mode), ..self }),
    {
        ReasoningConfig { mode: Some(mode), ..self }
    }

    /// Set the summary
    pub fn with_summary(self, summary: ReasoningSummary) -> (r: Self)
        ensures
            r == (ReasoningConfig { summary: Some(summary), ..self }),
    {
        ReasoningConfig { summary: Some(summary), ..self }
    }

    /// Set the context
    pub fn with_context(self, context: ReasoningContext) -> (r: Self)
        ensures
            r == (ReasoningConfig { context: Some(context), ..self }),
    {
        ReasoningConfig { context: Some(context), ..self }
    }
}

/// Text output settings
#[derive(Debug, Clone)]
pub struct TextConfig {
    /// Verbosity
    pub verbosity: Option<Verbosity>,
    /// Output format
    pub format: Option<JsonValue>,
}

impl Default for TextConfig {
    fn default() -> (r: Self)
        ensures
            r.verbosity is None,
            r.format is None,
    {
        TextConfig { verbosity: None, format: None }
    }
}

impl TextConfig {
    /// Settings with a verbosity and no format
    pub fn new(verbosity: Verbosity) -> (r: Self)
        ensures
            r.verbosity == Some(verbosity),
            r.format is None,
    {
        TextConfig { verbosity: Some(verbosity), format: None }
    }

    /// Low verbosity
    pub fn low() -> (r: Self)
        ensures
            r.verbosity == Some(Verbosity::Low),
            r.format is None,
    {
        Self::new(Verbosity::Low)
    }

    /// Medium verbosity
    pub fn medium() -> (r: Self)
        ensures
            r.verbosity == Some(Verbosity::Medium),
            r.format is None,
    {
        Self::new(Verbosity::Medium)
    }

    /// High verbosity
    pub fn high() -> (r: Self)
        ensures
            r.verbosity == Some(Verbosity::High),
            r.format is None,
    {
        Self::new(Verbosity::High)
    }

    /// Set the output format
    pub fn with_format(self, format: JsonValue) -> (r: Self)
        ensures
            r.verbosity == self.verbosity,
            r.format == Some(format),
    {
        TextConfig { format: Some(format), ..self }
    }
}

/// The GPT-5 model that replaces a model: the mini model for `o4-mini` and
/// `gpt-4.1-mini`, the nano model for `gpt-4.1-nano` and `gpt-3.5-turbo`, and GPT-5
/// for any other
pub open spec fn migration_target(old_model: Seq<char>) -> Seq<char> {
    if old_model == models::O4_MINI@ || old_model == models::GPT_4_1_MINI@ {
        models::GPT_5_MINI@
    } else if old_model == models::GPT_4_1_NANO@ || old_model == models::GPT_3_5_TURBO@ {
        models::GPT_5_NANO@
    } else {
        models::GPT_5@
    }
}

/// Chooses a GPT-5 model for a task
pub struct GPT5ModelSelector;

impl GPT5ModelSelector {
    /// The model for complex reasoning
    pub fn for_complex_reasoning() -> (r: &'static str)
        ensures
            r@ == models::GPT_5_6_SOL@,
    {
        models::GPT_5_6_SOL
    }

    /// The model for cost-sensitive work
    pub fn for_cost_optimized() -> (r: &'static str)
        ensures
            r@ == models::GPT_5_4_MINI@,
    {
        models::GPT_5_4_MINI
    }

    /// The model for high throughput
    pub fn for_high_throughput() -> (r: &'static str)
        ensures
            r@ == models::GPT_5_4_NANO@,
    {
        models::GPT_5_4_NANO
    }

    /// The model for coding
    pub fn for_coding() -> (r: &'static str)
        ensures
            r@ == models::GPT_5_4@,
    {
        models::GPT_5_4
    }

    /// The model for chat
    pub fn for_chat() -> (r: &'static str)
        ensures
            r@ == models::GPT_5_3_CHAT_LATEST@,
    {
        models::GPT_5_3_CHAT_LATEST
    }

    /// The GPT-5 model to move to from an older model
    pub fn migration_from(old_model: &str) -> (r: &'static str)
        ensures
            r@ == migration_target(old_model@),
            r@ == models::GPT_5@ || r@ == models::GPT_5_MINI@ || r@ == models::GPT_5_NANO@,
    {
        if crate::text::str_eq(old_model, models::O4_MINI) || crate::text::str_eq(
            old_model,
            models::GPT_4_1_MINI,
        ) {
            models::GPT_5_MINI
        } else if crate::text::str_eq(old_model, models::GPT_4_1_NANO) || crate::text::str_eq(
            old_model,
            models::GPT_3_5_TURBO,
        ) {
            models::GPT_5_NANO
        } else {
            models::GPT_5
        }
    }
}

} // verus!
