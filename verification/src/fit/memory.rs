//! The integer parts of the memory model: the `os_floor` reserve of
//! un-wired system RAM and the constraint that bounds the usable budget.

use vstd::prelude::*;

verus! {

/// Bytes in one GiB.
pub const GIB: u64 = 1073741824;

/// Bytes in one MiB.
pub const MIB: u64 = 1048576;

/// The shipped default runtime overhead: 1.2 GiB, rounded down to a byte.
pub const RUNTIME_OVERHEAD_BYTES: u64 = 1288490188;

/// The shipped default activation high-water mark: 0.4 GiB, rounded down to
/// a byte.
pub const ACTIVATION_DEFAULT_BYTES: u64 = 429496729;

/// The default KV-quantization group size.
pub const KV_GROUP_DEFAULT: u32 = 64;

/// The `os_floor` reserve: 4 GiB up to 16 GiB of RAM, 6 GiB up to 36 GiB,
/// 8 GiB up to 64 GiB, 12 GiB above.
pub open spec fn os_floor_spec(total_ram_bytes: nat) -> nat {
    if total_ram_bytes <= 16 * GIB {
        4 * GIB as nat
    } else if total_ram_bytes <= 36 * GIB {
        6 * GIB as nat
    } else if total_ram_bytes <= 64 * GIB {
        8 * GIB as nat
    } else {
        12 * GIB as nat
    }
}

/// The `os_floor` reserve of un-wired system RAM to leave for macOS.
pub fn os_floor_bytes(total_ram_bytes: u64) -> (r: u64)
    ensures
        r as nat == os_floor_spec(total_ram_bytes as nat),
{
    if total_ram_bytes <= 16 * GIB {
        4 * GIB
    } else if total_ram_bytes <= 36 * GIB {
        6 * GIB
    } else if total_ram_bytes <= 64 * GIB {
        8 * GIB
    } else {
        12 * GIB
    }
}

/// The reserve policy in bytes: 4 GiB for at most 16 GiB of RAM, 6 GiB for
/// more than 16 and at most 36 GiB, 8 GiB for more than 36 and at most
/// 64 GiB, and 12 GiB for anything above 64 GiB.
pub proof fn lemma_os_floor_tiers(total_ram_bytes: nat)
    ensures
        total_ram_bytes <= 17_179_869_184 ==> os_floor_spec(total_ram_bytes) == 4_294_967_296,
        17_179_869_184 < total_ram_bytes <= 38_654_705_664 ==> os_floor_spec(total_ram_bytes)
            == 6_442_450_944,
        38_654_705_664 < total_ram_bytes <= 68_719_476_736 ==> os_floor_spec(total_ram_bytes)
            == 8_589_934_592,
        68_719_476_736 < total_ram_bytes ==> os_floor_spec(total_ram_bytes) == 12_884_901_888,
{
}

/// The reserve never shrinks as RAM grows.
pub proof fn lemma_os_floor_monotone(a: nat, b: nat)
    requires
        a <= b,
    ensures
        os_floor_spec(a) <= os_floor_spec(b),
{
}

/// Which constraint bound the usable budget.
#[derive(Clone, Copy, PartialEq, Eq, Debug, Structural)]
pub enum BindingConstraint {
    /// The GPU working-set budget bound first.
    GpuBudget,
    /// The `os_floor` system-RAM reserve bound first.
    OsFloor,
}

/// The usable memory a plan may consume, and which constraint bound it.
#[derive(Clone, Copy, PartialEq, Eq, Debug, Structural)]
pub struct Usable {
    /// Usable bytes for weights + KV + activation + draft.
    pub bytes: u64,
    /// Which of the two constraints bound first.
    pub binding: BindingConstraint,
}

/// RAM left once the `os_floor` is reserved (zero when the floor exceeds it).
pub open spec fn ram_available_spec(total_ram_bytes: u64) -> nat {
    if total_ram_bytes >= os_floor_spec(total_ram_bytes as nat) {
        (total_ram_bytes - os_floor_spec(total_ram_bytes as nat)) as nat
    } else {
        0
    }
}

/// The budget before overheads, `min(budget, total_ram - os_floor)`, with
/// the constraint that bound it (the GPU budget on a tie).
pub fn effective_budget(total_ram_bytes: u64, budget_bytes: u64) -> (r: (u64, BindingConstraint))
    ensures
        budget_bytes <= ram_available_spec(total_ram_bytes) ==> r == (
        budget_bytes,
        BindingConstraint::GpuBudget,
        ),
        budget_bytes > ram_available_spec(total_ram_bytes) ==> r.0 == ram_available_spec(
            total_ram_bytes,
        ) && r.1 == BindingConstraint::OsFloor,
{
    let os_floor = os_floor_bytes(total_ram_bytes);
    let ram_available = total_ram_bytes.saturating_sub(os_floor);
    if budget_bytes <= ram_available {
        (budget_bytes, BindingConstraint::GpuBudget)
    } else {
        (ram_available, BindingConstraint::OsFloor)
    }
}

/// The six-term memory decomposition and its sum.
#[derive(Clone, Copy, PartialEq, Eq, Debug, Structural)]
pub struct MemoryTotal {
    /// Model weights.
    pub weights: u64,
    /// KV pool for the requested context and concurrency.
    pub kv_pool: u64,
    /// Activation high-water mark.
    pub activation_watermark: u64,
    /// Runtime overhead.
    pub runtime_overhead: u64,
    /// Draft-model weights (0 unless speculating with a draft).
    pub draft_model: u64,
    /// Fragmentation margin (3% of the other terms).
    pub fragmentation_margin: u64,
    /// The sum of the six terms.
    pub total: u64,
}

} // verus!
