//! A GPU-free backend double: deterministic stub behavior for every seam
//! step, over a small contiguous KV pool.

use vstd::prelude::*;

use super::backend::{DecodeOut, LogitsRef, PrefillOut};
use super::kv::ContiguousKvPool;
use crate::artifact::{
    ArchDescriptor, ArtifactFormat, BlobRef, LayoutClass, ModelArtifact, ModelHandle, QuantDesc,
    ToolDialect,
};
use crate::exec::{DecodeBatch, PrefillChunk};
use crate::ids::{Sha256, TokenId};
use crate::memory::{MemoryBreakdown, MemoryBudget, MemoryReport};

verus! {

/// A deterministic, GPU-free backend double.
pub struct MockBackend {
    pool: ContiguousKvPool,
    instances: u64,
    last_budget: MemoryBudget,
    sampled: u32,
}

/// `n` as a `u32`, saturating.
pub open spec fn clamp_u32(n: nat) -> u32 {
    if n > u32::MAX {
        u32::MAX
    } else {
        n as u32
    }
}

impl MockBackend {
    /// Loads so far.
    pub closed spec fn spec_instances(&self) -> u64 {
        self.instances
    }

    /// The budget of the last load.
    pub closed spec fn spec_last_budget(&self) -> MemoryBudget {
        self.last_budget
    }

    /// Non-greedy tokens sampled so far.
    pub closed spec fn spec_sampled(&self) -> u32 {
        self.sampled
    }

    /// The backend's KV pool.
    pub closed spec fn spec_pool(&self) -> ContiguousKvPool {
        self.pool
    }

    /// The backend's KV pool invariant holds.
    pub open spec fn wf(&self) -> bool {
        self.spec_pool().wf()
    }

    /// A mock backend with a 1 MiB contiguous KV pool at 128 bytes per token.
    pub fn new() -> (r: MockBackend)
        ensures
            r.wf(),
            r.spec_instances() == 0,
            r.spec_sampled() == 0,
            r.spec_last_budget() == (MemoryBudget {
                declared: 0,
                weights: 0,
                kv_pool: 0,
                activation_watermark: 0,
                runtime_overhead: 0,
                draft_model: 0,
                fragmentation_margin: 0,
            }),
    {
        MockBackend {
            pool: ContiguousKvPool::new(1048576, 128),
            instances: 0,
            last_budget: MemoryBudget::new(0, 0, 0, 0, 0, 0),
            sampled: 0,
        }
    }

    /// Loads a model: counts the instance and records the budget; the handle
    /// carries the new instance number.
    pub fn load(&mut self, artifact: Sha256, budget: MemoryBudget) -> (r: ModelHandle)
        requires
            old(self).spec_instances() < u64::MAX,
        ensures
            final(self).spec_instances() == old(self).spec_instances() + 1,
            final(self).spec_last_budget() == budget,
            final(self).spec_sampled() == old(self).spec_sampled(),
            final(self).wf() == old(self).wf(),
            r@ == (final(self).spec_instances(), artifact, budget),
    {
        self.instances = self.instances + 1;
        self.last_budget = budget;
        ModelHandle::new(self.instances, artifact, budget)
    }

    /// One prefill chunk: every token counts as processed.
    pub fn prefill(&self, batch: &PrefillChunk) -> (r: PrefillOut)
        ensures
            r == (PrefillOut {
                logits: LogitsRef(0),
                tokens_processed: clamp_u32(batch.tokens@.len()),
            }),
    {
        let n = batch.tokens.len();
        let processed = if n > u32::MAX as usize {
            u32::MAX
        } else {
            n as u32
        };
        PrefillOut { logits: LogitsRef(0), tokens_processed: processed }
    }

    /// One decode step: the batch size is the number of entries.
    pub fn decode(&self, batch: &DecodeBatch) -> (r: DecodeOut)
        ensures
            r == (DecodeOut { logits: LogitsRef(1), batch: clamp_u32(batch.entries@.len()) }),
    {
        let n = batch.entries.len();
        let b = if n > u32::MAX as usize {
            u32::MAX
        } else {
            n as u32
        };
        DecodeOut { logits: LogitsRef(1), batch: b }
    }

    /// The token a sample yields: `42` when greedy (temperature 0), else the
    /// next value of a counter.
    pub fn next_token(&mut self, greedy: bool) -> (r: TokenId)
        requires
            greedy || old(self).spec_sampled() < u32::MAX,
        ensures
            greedy ==> r == TokenId(42) && final(self).spec_sampled() == old(self).spec_sampled(),
            !greedy ==> r == TokenId(old(self).spec_sampled()) && final(self).spec_sampled()
                == old(self).spec_sampled() + 1,
            final(self).spec_instances() == old(self).spec_instances(),
            final(self).spec_last_budget() == old(self).spec_last_budget(),
            final(self).wf() == old(self).wf(),
    {
        if greedy {
            TokenId(42)
        } else {
            let t = TokenId(self.sampled);
            self.sampled = self.sampled + 1;
            t
        }
    }

    /// The measured footprint: exactly the declared budget of the last load,
    /// broken down by its components.
    pub fn memory_report(&self) -> (r: MemoryReport)
        ensures
            r.actual == self.spec_last_budget().declared,
            r.declared == self.spec_last_budget().declared,
            r.breakdown == (MemoryBreakdown {
                weights: self.spec_last_budget().weights,
                kv: self.spec_last_budget().kv_pool,
                activations: self.spec_last_budget().activation_watermark,
                allocator_cache: 0,
            }),
            r.metal_recommended_working_set == self.spec_last_budget().declared,
            r.wired_limit_mb == 0,
    {
        MemoryReport {
            actual: self.last_budget.declared,
            declared: self.last_budget.declared,
            breakdown: MemoryBreakdown {
                weights: self.last_budget.weights,
                kv: self.last_budget.kv_pool,
                activations: self.last_budget.activation_watermark,
                allocator_cache: 0,
            },
            metal_recommended_working_set: self.last_budget.declared,
            wired_limit_mb: 0,
        }
    }

    /// The backend's KV pool, borrowed for the caller to drive.
    pub fn kv(&mut self) -> (r: &mut ContiguousKvPool)
        ensures
            *r == old(self).spec_pool(),
            final(self).spec_pool() == *final(r),
            final(self).spec_instances() == old(self).spec_instances(),
            final(self).spec_last_budget() == old(self).spec_last_budget(),
            final(self).spec_sampled() == old(self).spec_sampled(),
    {
        &mut self.pool
    }
}

/// Whether every byte of a digest is `b`.
pub open spec fn digest_filled(d: Sha256, b: u8) -> bool {
    forall|i: int| 0 <= i < 32 ==> #[trigger] d.0@[i] == b
}

fn stub_blob(name: &str) -> (r: BlobRef)
    ensures
        digest_filled(r.digest, 0),
        r.bytes == 1,
        r.name@ == name@,
{
    BlobRef { digest: Sha256([0u8; 32]), bytes: 1, name: name.to_owned() }
}

/// A minimal, valid artifact for the mock backend: a one-layer `mock`
/// architecture in 4-bit `mlx_affine`, one weight blob, and a 4096-token
/// context.
pub fn stub_artifact() -> (r: ModelArtifact)
    ensures
        digest_filled(r.digest, 1),
        r.manifest_path@ == "/dev/null"@,
        r.format == ArtifactFormat::MlxSafetensors,
        r.quant.scheme@ == "mlx_affine"@ && r.quant.bits == 4 && r.quant.group == 64
            && r.quant.recipe is None,
        r.arch.name@ == "mock"@ && r.arch.layers == 1 && r.arch.hidden == 8 && r.arch.heads == 2
            && r.arch.kv_heads == 1 && r.arch.head_dim == 4 && r.arch.vocab == 100
            && r.arch.params_total == 1000 && r.arch.params_active == 1000 && r.arch.moe is None
            && r.arch.layout_classes@ == seq![LayoutClass::Global],
        r.weights@.len() == 1 && digest_filled(r.weights@[0].digest, 0) && r.weights@[0].bytes == 1
            && r.weights@[0].name@ == "model.safetensors"@,
        digest_filled(r.tokenizer.digest, 0) && r.tokenizer.bytes == 1
            && r.tokenizer.name@ == "tokenizer.json"@,
        digest_filled(r.tokenizer_hash, 0),
        digest_filled(r.chat_template.digest, 0) && r.chat_template.bytes == 1
            && r.chat_template.name@ == "chat_template.jinja"@,
        digest_filled(r.chat_template_hash, 0),
        r.tool_dialect == ToolDialect::NoTools,
        r.advertised_ctx == 4096,
{
    let mut layout_classes = Vec::new();
    layout_classes.push(LayoutClass::Global);
    let mut weights = Vec::new();
    weights.push(stub_blob("model.safetensors"));
    ModelArtifact {
        digest: Sha256([1u8; 32]),
        manifest_path: "/dev/null".to_owned(),
        format: ArtifactFormat::MlxSafetensors,
        quant: QuantDesc { scheme: "mlx_affine".to_owned(), bits: 4, group: 64, recipe: None },
        arch: ArchDescriptor {
            name: "mock".to_owned(),
            layers: 1,
            hidden: 8,
            heads: 2,
            kv_heads: 1,
            head_dim: 4,
            vocab: 100,
            params_total: 1000,
            params_active: 1000,
            moe: None,
            layout_classes,
        },
        weights,
        tokenizer: stub_blob("tokenizer.json"),
        tokenizer_hash: Sha256([0u8; 32]),
        chat_template: stub_blob("chat_template.jinja"),
        chat_template_hash: Sha256([0u8; 32]),
        tool_dialect: ToolDialect::NoTools,
        advertised_ctx: 4096,
    }
}

} // verus!
