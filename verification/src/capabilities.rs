//! Runtime capability vocabulary: chip identity, speculative-decoding
//! support, and the paged-attention path.

use vstd::prelude::*;

verus! {

/// Chip identity and GPU core count.
#[derive(Clone, PartialEq, Eq, Debug)]
pub struct ChipId {
    /// Marketing name, e.g. `"Apple M4 Pro"`.
    pub name: String,
    /// Number of GPU cores.
    pub gpu_cores: u32,
}

/// Which speculative-decoding paths the backend supports.
#[derive(Clone, Copy, PartialEq, Eq, Debug, Default, Structural)]
pub struct SpecDecodeSupport {
    /// Prompt-lookup / n-gram speculation.
    pub ngram: bool,
    /// Draft-model speculation.
    pub draft: bool,
}

/// The paged-attention execution path the backend offers.
#[derive(Clone, Copy, PartialEq, Eq, Debug, Structural)]
pub enum PagedPath {
    /// Gather blocks into a contiguous buffer, then run dense attention.
    GatherFallback,
    /// A fused variable-length paged-attention kernel.
    FusedVarlen,
}

} // verus!
