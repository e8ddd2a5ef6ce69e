//! The backend seam's output value types: opaque logits handles and the
//! per-step results of prefill and decode.

use vstd::prelude::*;

verus! {

/// An opaque handle to on-device logits produced by prefill/decode; only the
/// owning backend interprets it.
#[derive(Clone, Copy, PartialEq, Eq, Hash, Debug, Structural)]
pub struct LogitsRef(pub u64);

/// The result of a prefill chunk: the logits for the final position and how
/// many tokens were processed.
#[derive(Clone, Copy, PartialEq, Eq, Debug, Structural)]
pub struct PrefillOut {
    /// On-device logits for the last processed position.
    pub logits: LogitsRef,
    /// Tokens processed in this chunk.
    pub tokens_processed: u32,
}

/// The result of one decode step across the batch.
#[derive(Clone, Copy, PartialEq, Eq, Debug, Structural)]
pub struct DecodeOut {
    /// On-device logits for the sequences in this decode step.
    pub logits: LogitsRef,
    /// Number of sequences in the step (the batch size `B`).
    pub batch: u32,
}

} // verus!
