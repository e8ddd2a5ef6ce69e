//! The integer side of the feasibility engine: the report's enumerations and
//! plain facets, the machine and request inputs, the `os_floor` reserve and
//! the budget constraint, and the verdict tiers with their ranked remedies
//! and wired-limit guidance.

pub mod context;
pub mod memory;
pub mod metadata;
pub mod model;
pub mod verdict;

use vstd::prelude::*;

use crate::capabilities::ChipId;
use crate::ids::SchemaTag;

verus! {

/// The schema tag every feasibility report carries.
pub fn fit_schema() -> (r: SchemaTag)
    ensures
        r.0 == "drakkar.fit/1",
{
    SchemaTag("drakkar.fit/1")
}

/// The confidence tier printed with every predicted number.
#[derive(Clone, Copy, PartialEq, Eq, Debug, Structural)]
pub enum Confidence {
    /// Directly measured on this machine.
    Measured,
    /// Derived from a calibration file for this chip.
    Calibrated,
    /// Produced from shipped closed-form constants.
    Modeled,
}

/// A predicted value with its confidence tier.
#[derive(Clone, Copy, PartialEq, Debug)]
pub struct Estimate<T> {
    /// The predicted value.
    pub value: T,
    /// How the value was obtained.
    pub confidence: Confidence,
}

/// Where the GPU memory budget came from.
#[derive(Clone, Copy, PartialEq, Eq, Debug, Structural)]
pub enum BudgetSource {
    /// Live Metal probe of the recommended working set.
    Probe,
    /// The shipped per-chip fallback table.
    Table,
}

/// The overall feasibility verdict.
#[derive(Clone, Copy, PartialEq, Eq, Debug, Structural)]
pub enum Verdict {
    /// Fits with generous headroom.
    Comfortable,
    /// Fits, but with little headroom.
    Tight,
    /// Fits only after applying a remedy.
    NeedsTuning,
    /// Does not fit at the requested configuration.
    WontFit,
}

/// The context-ceiling solver output per KV precision.
#[derive(Clone, Copy, PartialEq, Eq, Debug, Structural)]
pub struct FitContext {
    /// The requested context length.
    pub requested: u32,
    /// Maximum context at fp16 KV.
    pub max_fp16: u32,
    /// Maximum context at 8-bit KV.
    pub max_kv8: u32,
    /// Maximum context at 4-bit KV, when solved.
    pub max_kv4: Option<u32>,
    /// The model's advertised context length.
    pub advertised: u32,
}

/// The kind of a ranked remedy.
#[derive(Clone, Copy, PartialEq, Eq, Debug, Structural)]
pub enum RemedyKind {
    /// Use an official pre-quantized artifact.
    OfficialQuant,
    /// Quantize on device to the store.
    OnDeviceQuant,
    /// Use 8-bit KV.
    Kv8Bit,
    /// Reduce the requested context.
    ReducedContext,
    /// Use sub-8-bit KV.
    KvSubByte,
    /// Raise the wired memory limit (opt-in).
    WiredLimitRaise,
}

/// A ranked remedy carrying the exact command to apply it. This is the
/// fit-report remedy, distinct from the error taxonomy's remedy.
#[derive(Clone, PartialEq, Debug)]
pub struct Remedy {
    /// Rank in the ladder (1 = most preferred).
    pub rank: u8,
    /// The kind of remedy.
    pub kind: RemedyKind,
    /// A copy-pasteable command, e.g. `drakkar pull qwen3:8b --quant 4bit-g64`.
    pub command: String,
    /// The predicted outcome in domain terms.
    pub effect: String,
}

/// The mathematical value of a [`Remedy`].
pub struct RemedyView {
    /// Rank.
    pub rank: u8,
    /// Kind.
    pub kind: RemedyKind,
    /// Command.
    pub command: Seq<char>,
    /// Effect.
    pub effect: Seq<char>,
}

impl View for Remedy {
    type V = RemedyView;

    open spec fn view(&self) -> RemedyView {
        RemedyView {
            rank: self.rank,
            kind: self.kind,
            command: self.command@,
            effect: self.effect@,
        }
    }
}

/// The machine facts the feasibility logic plans against. Probed bandwidth
/// and SSD throughput, which only the performance estimates read, are kept
/// outside the verified core.
#[derive(PartialEq, Debug)]
pub struct MachineProfile {
    /// Chip identity and GPU core count.
    pub chip: ChipId,
    /// Total unified memory in bytes.
    pub total_ram_bytes: u64,
    /// The GPU memory budget in bytes.
    pub budget_bytes: u64,
    /// Whether `budget_bytes` was probed or read from the fallback table.
    pub budget_source: BudgetSource,
    /// Current `iogpu.wired_limit_mb` (0 when unset).
    pub wired_limit_mb: u32,
    /// Free memory in bytes at probe time.
    pub free_bytes: u64,
    /// macOS version as `(major, minor)`.
    pub macos: (u16, u16),
    /// Whether the tensor-op self-test passed.
    pub nax_tensor_ops: bool,
}

/// The requested plan: target context, concurrency, KV precision, and
/// draft-model choice.
#[derive(Clone, Copy, PartialEq, Eq, Debug, Structural)]
pub struct RequestShape {
    /// Target context length (prompt + generation).
    pub target_ctx: u32,
    /// Concurrent sequences to plan the KV pool for.
    pub concurrency: u32,
    /// KV precision in bits: 16 (fp16), 8, or 4.
    pub kv_bits: u8,
    /// Whether a draft model is used for speculation.
    pub draft_model: bool,
}

impl Default for RequestShape {
    /// The defaults: a 32k display context cap, concurrency 1, fp16 KV, no
    /// draft model.
    fn default() -> (r: RequestShape)
        ensures
            r == (RequestShape {
                target_ctx: 32768,
                concurrency: 1,
                kv_bits: 16,
                draft_model: false,
            }),
    {
        RequestShape { target_ctx: 32_768, concurrency: 1, kv_bits: 16, draft_model: false }
    }
}

} // verus!
