//! The normalized, dialect-free request vocabulary: model selection,
//! priority, the rendering dialect, limits, cache policy, and the tokenized
//! prompt.

use vstd::prelude::*;

use crate::ids::TokenId;

verus! {

/// Which model the request targets.
#[derive(Clone, PartialEq, Eq, Debug)]
pub enum ModelSelector {
    /// A model already resident in memory, by name.
    Resident(String),
    /// An installed model to be loaded, by name.
    Installed(String),
    /// The configured default model.
    Default,
}

/// Scheduling priority class.
#[derive(Clone, Copy, PartialEq, Eq, Debug, Structural)]
pub enum Priority {
    /// Latency-sensitive interactive traffic.
    Interactive,
    /// Throughput-oriented batch traffic.
    Batch,
}

/// The response-rendering dialect, read only by the response-rendering layer.
#[derive(Clone, Copy, PartialEq, Eq, Debug, Structural)]
pub enum RenderTarget {
    /// OpenAI `/v1/chat/completions` shape.
    OpenAiChat,
    /// OpenAI legacy `/v1/completions` shape.
    OpenAiLegacy,
    /// Anthropic `/v1/messages` shape.
    Anthropic,
    /// CLI rendering.
    Cli,
}

/// An explicit `cache_control` hint, honored as a hint and never required.
#[derive(Clone, Copy, PartialEq, Eq, Debug, Structural)]
pub enum CacheHint {
    /// An ephemeral cache breakpoint.
    Ephemeral,
}

/// Per-request limits.
#[derive(Clone, PartialEq, Eq, Debug, Default)]
pub struct RequestLimits {
    /// Maximum tokens to generate, already clamped to the model context.
    pub max_tokens: u32,
    /// Stop strings, matched across token boundaries.
    pub stop_strings: Vec<String>,
    /// Stop token ids.
    pub stop_token_ids: Vec<TokenId>,
}

/// The per-request cache policy.
#[derive(Clone, PartialEq, Eq, Debug)]
pub struct CachePolicy {
    /// When `false`, blocks are never donated to the cache, even in RAM.
    pub donate: bool,
    /// Explicit cache-control hints, honored as hints.
    pub hints: Vec<CacheHint>,
}

impl Default for CachePolicy {
    /// Donation on, no hints.
    fn default() -> (r: CachePolicy)
        ensures
            r.donate && r.hints@.len() == 0,
    {
        CachePolicy { donate: true, hints: Vec::new() }
    }
}

/// A tokenized prompt: token ids plus the byte length of the rendered text.
#[derive(Clone, PartialEq, Eq, Debug, Default)]
pub struct TokenizedPrompt {
    /// The prompt token ids.
    pub tokens: Vec<TokenId>,
    /// The byte length of the rendered prompt text.
    pub byte_len: usize,
}

/// A compiled structured-output grammar (opaque here).
#[derive(Clone, PartialEq, Eq, Debug)]
pub struct CompiledGrammar {}

/// Declared tools plus the family dialect that drives stream parsing (opaque
/// here).
#[derive(Clone, PartialEq, Eq, Debug)]
pub struct ToolContext {}

} // verus!
