//! Model artifacts and backend handles: the quantization and architecture
//! descriptors, blob references, and the backend's receipt for a loaded model.

use std::marker::PhantomData;
use std::rc::Rc;

use vstd::prelude::*;

use crate::ids::Sha256;
use crate::memory::MemoryBudget;

verus! {

/// The on-disk artifact format.
#[derive(Clone, Copy, PartialEq, Eq, Debug, Structural)]
pub enum ArtifactFormat {
    /// MLX-native quantized safetensors.
    MlxSafetensors,
    /// Upstream safetensors (fp16/bf16 or upstream quant).
    Safetensors,
    /// GGUF (secondary backend path).
    Gguf,
}

/// A quantization descriptor. The effective bits per weight follow from
/// `bits` and `group` (`bits + 32 / group`, or `bits` when not group-wise)
/// and are computed where floating point is available.
#[derive(Clone, PartialEq, Debug)]
pub struct QuantDesc {
    /// Quantization scheme, e.g. `"mlx_affine"`.
    pub scheme: String,
    /// Bits per stored weight, e.g. `4`, `8`, `16`.
    pub bits: u8,
    /// Group size for group-wise schemes; `0` when not group-wise.
    pub group: u32,
    /// Curated recipe identifier, when one applies.
    pub recipe: Option<String>,
}

/// The per-layer KV layout class.
#[derive(Clone, Copy, PartialEq, Eq, Debug, Structural)]
pub enum LayoutClass {
    /// Global attention; paged.
    Global,
    /// Sliding-window attention; a per-sequence ring buffer outside the pool.
    SlidingWindow {
        /// Window length in tokens.
        window: u32,
        /// Number of attention-sink tokens retained at the front.
        sinks: u32,
    },
    /// Multi-head latent attention; paged blocks store the shared latent.
    MlaLatent {
        /// Compressed KV latent dimension.
        c_kv: u32,
        /// Decoupled rope dimension.
        d_rope: u32,
    },
    /// Recurrent / SSM state; constant per-sequence state.
    Recurrent {
        /// Bytes of state carried per sequence.
        state_bytes: u64,
    },
}

/// Mixture-of-experts topology, when the architecture is an MoE.
#[derive(Clone, Copy, PartialEq, Eq, Debug, Structural)]
pub struct MoeTopology {
    /// Total number of experts per MoE layer.
    pub num_experts: u32,
    /// Experts routed to per token.
    pub experts_per_token: u32,
    /// Always-on shared experts, if any.
    pub shared_experts: u32,
}

/// The parsed model architecture. Backend-neutral: dimensions, MoE topology,
/// and the per-layer KV layout classes.
#[derive(Clone, PartialEq, Debug)]
pub struct ArchDescriptor {
    /// Architecture family name, e.g. `"qwen3"`.
    pub name: String,
    /// Number of transformer layers.
    pub layers: u32,
    /// Hidden size.
    pub hidden: u32,
    /// Number of attention (query) heads.
    pub heads: u32,
    /// Number of key/value heads (GQA); equals `heads` for MHA.
    pub kv_heads: u32,
    /// Per-head dimension.
    pub head_dim: u32,
    /// Vocabulary size.
    pub vocab: u32,
    /// Total parameters.
    pub params_total: u64,
    /// Active parameters per token (equals `params_total` for dense models).
    pub params_active: u64,
    /// MoE topology, when the architecture is a mixture of experts.
    pub moe: Option<MoeTopology>,
    /// The KV layout class of each layer, in layer order.
    pub layout_classes: Vec<LayoutClass>,
}

/// A reference to one immutable blob in the content-addressed store.
#[derive(Clone, PartialEq, Debug)]
pub struct BlobRef {
    /// Content digest, and the blob's file name in the store.
    pub digest: Sha256,
    /// Size in bytes.
    pub bytes: u64,
    /// Human-readable file name.
    pub name: String,
}

/// A resolved, loadable model artifact, as the manifest describes it.
#[derive(Clone, PartialEq, Debug)]
pub struct ModelArtifact {
    /// Digest of the manifest body; the identity of the artifact.
    pub digest: Sha256,
    /// Path to the manifest file in the store.
    pub manifest_path: String,
    /// The on-disk format.
    pub format: ArtifactFormat,
    /// Quantization descriptor.
    pub quant: QuantDesc,
    /// The parsed architecture.
    pub arch: ArchDescriptor,
    /// Weight blobs, ordered for mmap.
    pub weights: Vec<BlobRef>,
    /// Tokenizer blob.
    pub tokenizer: BlobRef,
    /// Tokenizer content hash.
    pub tokenizer_hash: Sha256,
    /// Chat-template blob.
    pub chat_template: BlobRef,
    /// Chat-template content hash, after override patching.
    pub chat_template_hash: Sha256,
    /// Tool-call dialect for this model family.
    pub tool_dialect: ToolDialect,
    /// Advertised maximum context length.
    pub advertised_ctx: u32,
}

/// The tool-call dialect for a model family.
#[derive(Clone, Copy, PartialEq, Eq, Debug, Structural)]
pub enum ToolDialect {
    /// The model family declares no native tool-call convention.
    NoTools,
    /// Nous / Hermes-style `<tool_call>` JSON blocks.
    Hermes,
    /// Qwen-family tool-call convention.
    Qwen,
    /// Mistral-family `[TOOL_CALLS]` convention.
    Mistral,
    /// Llama-3-family tool-call convention.
    Llama,
    /// DeepSeek-family tool-call convention.
    DeepSeek,
    /// gpt-oss tool-call convention.
    GptOss,
}

/// The backend's receipt for a loaded model: opaque above the seam and
/// neither `Send` nor `Sync`, so it never leaves the engine actor thread.
pub struct ModelHandle {
    /// Unique per load within the process.
    pub instance: u64,
    /// The exact artifact digest this handle ties to.
    pub artifact: Sha256,
    /// The contract this instance was loaded under.
    pub budget: MemoryBudget,
    confined: PhantomData<Rc<()>>,
}

impl View for ModelHandle {
    type V = (u64, Sha256, MemoryBudget);

    /// The instance id, the artifact digest and the budget.
    closed spec fn view(&self) -> (u64, Sha256, MemoryBudget) {
        (self.instance, self.artifact, self.budget)
    }
}

impl ModelHandle {
    /// A handle for a freshly loaded model instance.
    pub fn new(instance: u64, artifact: Sha256, budget: MemoryBudget) -> (r: ModelHandle)
        ensures
            r@ == (instance, artifact, budget),
    {
        ModelHandle { instance, artifact, budget, confined: PhantomData }
    }
}

} // verus!
