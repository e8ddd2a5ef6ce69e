//! The engine actor's execution vocabulary: step-granular value types shared
//! by the scheduler, the engine actor, and the backends. The handle newtypes
//! are opaque, backend-neutral markers.

use vstd::prelude::*;

use crate::ids::{SeqId, TokenId};

verus! {

/// An opaque handle to a backend's per-sequence logical-to-physical KV block
/// map.
#[derive(Clone, Copy, PartialEq, Eq, Hash, Debug, Structural)]
pub struct BlockTableRef(pub u64);

/// An opaque handle to a backend's per-sequence on-device sampler state.
#[derive(Clone, Copy, PartialEq, Eq, Hash, Debug, Structural)]
pub struct SamplerStateRef(pub u64);

/// An opaque handle to an uploaded grammar mask.
#[derive(Clone, Copy, PartialEq, Eq, Hash, Debug, Structural)]
pub struct MaskRef(pub u64);

/// Speculative draft tokens to verify in one decode step.
#[derive(Clone, PartialEq, Eq, Debug, Default)]
pub struct DraftTokens {
    /// The proposed tokens, verified against the true distribution this step.
    pub tokens: Vec<TokenId>,
}

/// One prefill chunk for a sequence; the final chunk (`is_last`) promotes the
/// sequence into the decode batch.
#[derive(Clone, PartialEq, Eq, Debug)]
pub struct PrefillChunk {
    /// The sequence this chunk belongs to.
    pub seq: SeqId,
    /// The chunk's token ids.
    pub tokens: Vec<TokenId>,
    /// The absolute position of `tokens[0]`.
    pub position_offset: u32,
    /// Opaque block-table handle.
    pub block_table: BlockTableRef,
    /// Whether this is the final chunk of the prompt.
    pub is_last: bool,
}

/// One decode step across `B` sequences.
#[derive(Clone, PartialEq, Eq, Debug, Default)]
pub struct DecodeBatch {
    /// One entry per sequence in the batch.
    pub entries: Vec<DecodeEntry>,
}

/// One sequence's state for a single decode step.
#[derive(Clone, PartialEq, Eq, Debug)]
pub struct DecodeEntry {
    /// The sequence.
    pub seq: SeqId,
    /// The last sampled token, fed as this step's input.
    pub last_token: TokenId,
    /// The absolute position of `last_token`.
    pub position: u32,
    /// Opaque block-table handle.
    pub block_table: BlockTableRef,
    /// Opaque per-sequence on-device sampler state.
    pub sampler: SamplerStateRef,
    /// Opaque grammar mask, uploaded only for constrained requests.
    pub grammar_mask: Option<MaskRef>,
    /// Speculative tokens to verify this step.
    pub draft: Option<DraftTokens>,
}

/// Why a sequence finished generating.
#[derive(Clone, Copy, PartialEq, Eq, Debug, Structural)]
pub enum FinishReason {
    /// A stop token id was produced.
    Stop,
    /// The `max_tokens` limit was reached.
    Length,
    /// A stop string matched.
    StopString,
    /// The end-of-sequence token was produced.
    Eos,
    /// The request was cancelled (e.g. client disconnect).
    Cancelled,
}

} // verus!
