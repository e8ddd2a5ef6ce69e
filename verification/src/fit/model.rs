//! The model descriptor input: everything the feasibility engine needs about a
//! model, resolved from metadata without downloading weights.

use vstd::prelude::*;

use crate::artifact::{LayoutClass, MoeTopology, QuantDesc};

verus! {

/// One tensor's dtype and size from the safetensors index.
#[derive(Clone, PartialEq, Eq, Debug)]
pub struct TensorEntry {
    /// The tensor name.
    pub name: String,
    /// The dtype string as published, e.g. `"F16"`, `"BF16"`, `"U8"`.
    pub dtype: String,
    /// The tensor size in bytes.
    pub bytes: u64,
}

/// Everything the feasibility engine needs about a model.
#[derive(Clone, PartialEq, Debug)]
pub struct ModelDescriptor {
    /// The model reference, e.g. `"Qwen/Qwen3-8B"`.
    pub reference: String,
    /// Architecture family name, e.g. `"qwen3"`.
    pub arch: String,
    /// Number of transformer layers.
    pub layers: u32,
    /// Hidden size.
    pub hidden: u32,
    /// Number of attention (query) heads.
    pub heads: u32,
    /// Number of key/value heads (GQA).
    pub kv_heads: u32,
    /// Per-head dimension.
    pub head_dim: u32,
    /// Vocabulary size.
    pub vocab: u32,
    /// Total parameters.
    pub params_total: u64,
    /// Active parameters per token (equals `params_total` for dense models).
    pub params_active: u64,
    /// MoE topology, when the architecture is a mixture of experts.
    pub moe: Option<MoeTopology>,
    /// Per-layer KV layout classes.
    pub layout_classes: Vec<LayoutClass>,
    /// Quantization descriptor.
    pub quant: QuantDesc,
    /// Advertised maximum context length.
    pub advertised_ctx: u32,
    /// Per-tensor sizes from the safetensors index; empty when the repo
    /// publishes no index.
    pub tensors: Vec<TensorEntry>,
    /// Total repo file size in bytes (all published files).
    pub repo_total_bytes: u64,
}

/// The sum of the tensor sizes.
pub open spec fn tensors_total(t: Seq<TensorEntry>) -> nat
    decreases t.len(),
{
    if t.len() == 0 {
        0
    } else {
        tensors_total(t.drop_last()) + t.last().bytes as nat
    }
}

impl ModelDescriptor {
    /// The exact weight byte total from the safetensors index, or `None` when
    /// no per-tensor sizes are available and the estimate path must be used.
    pub fn exact_weight_bytes(&self) -> (r: Option<u64>)
        requires
            tensors_total(self.tensors@) <= u64::MAX,
        ensures
            self.tensors@.len() == 0 ==> r is None,
            self.tensors@.len() > 0 ==> r == Some(tensors_total(self.tensors@) as u64),
    {
        if self.tensors.len() == 0 {
            return None;
        }
        let mut sum: u64 = 0;
        let mut i: usize = 0;
        while i < self.tensors.len()
            invariant
                i <= self.tensors@.len(),
                tensors_total(self.tensors@) <= u64::MAX,
                sum == tensors_total(self.tensors@.subrange(0, i as int)),
            decreases self.tensors@.len() - i,
        {
            proof {
                let pre = self.tensors@.subrange(0, i + 1);
                assert(pre.drop_last() =~= self.tensors@.subrange(0, i as int));
                lemma_tensors_total_prefix(self.tensors@, i + 1);
            }
            sum = sum + self.tensors[i].bytes;
            i = i + 1;
        }
        assert(self.tensors@.subrange(0, self.tensors@.len() as int) =~= self.tensors@);
        Some(sum)
    }
}

/// A prefix never sums to more than the whole.
pub proof fn lemma_tensors_total_prefix(t: Seq<TensorEntry>, k: int)
    requires
        0 <= k <= t.len(),
    ensures
        tensors_total(t.subrange(0, k)) <= tensors_total(t),
    decreases t.len(),
{
    if k < t.len() {
        assert(t.drop_last().subrange(0, k) =~= t.subrange(0, k));
        lemma_tensors_total_prefix(t.drop_last(), k);
    } else {
        assert(t.subrange(0, k) =~= t);
    }
}

} // verus!
