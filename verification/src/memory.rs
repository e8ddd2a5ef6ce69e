//! The memory contract as data: a [`MemoryBudget`] declared once at load and
//! the [`MemoryReport`] a backend measures against it. A budget's `declared`
//! total always equals the (saturating) sum of its components.

use vstd::prelude::*;

use crate::text::{nat_decimal, push_str, push_u64};

verus! {

/// The exact (unbounded) sum of six components.
pub open spec fn parts_total(
    weights: u64,
    kv_pool: u64,
    activation_watermark: u64,
    runtime_overhead: u64,
    draft_model: u64,
    fragmentation_margin: u64,
) -> nat {
    (weights + kv_pool + activation_watermark + runtime_overhead + draft_model
        + fragmentation_margin) as nat
}

/// The saturating sum of six components: the exact sum, or `u64::MAX` when it
/// does not fit.
pub open spec fn parts_sum(
    weights: u64,
    kv_pool: u64,
    activation_watermark: u64,
    runtime_overhead: u64,
    draft_model: u64,
    fragmentation_margin: u64,
) -> u64 {
    let t = parts_total(
        weights,
        kv_pool,
        activation_watermark,
        runtime_overhead,
        draft_model,
        fragmentation_margin,
    );
    if t > u64::MAX {
        u64::MAX
    } else {
        t as u64
    }
}

/// The declared memory budget for one loaded model instance. `declared` is
/// never exceeded; it always equals the sum of the component fields.
#[derive(Clone, Copy, PartialEq, Eq, Debug, Structural)]
pub struct MemoryBudget {
    /// Total contract in bytes; equals the sum of the components below.
    pub declared: u64,
    /// Model weights (bytes).
    pub weights: u64,
    /// KV pool, carved into blocks up front at load.
    pub kv_pool: u64,
    /// Activation high-water mark, bounded by chunk size.
    pub activation_watermark: u64,
    /// Runtime overhead.
    pub runtime_overhead: u64,
    /// Draft-model weights; 0 unless speculating with a draft.
    pub draft_model: u64,
    /// Fragmentation margin.
    pub fragmentation_margin: u64,
}

/// Error returned when a [`MemoryBudget`] is asserted with a `declared` total
/// that does not equal the sum of its components.
#[derive(Clone, Copy, PartialEq, Eq, Debug, Structural)]
pub struct BudgetMismatch {
    /// The `declared` total that was supplied.
    pub declared: u64,
    /// The sum of the component fields.
    pub component_sum: u64,
}

/// The text of a mismatch: `memory budget declared <d> but components sum to <s>`.
pub open spec fn mismatch_text(declared: u64, component_sum: u64) -> Seq<char> {
    "memory budget declared "@ + nat_decimal(declared as nat) + " but components sum to "@
        + nat_decimal(component_sum as nat)
}

impl BudgetMismatch {
    /// The human-readable message.
    pub fn message(&self) -> (r: String)
        ensures
            r@ == mismatch_text(self.declared, self.component_sum),
    {
        let mut s = String::new();
        push_str(&mut s, "memory budget declared ");
        push_u64(&mut s, self.declared);
        push_str(&mut s, " but components sum to ");
        push_u64(&mut s, self.component_sum);
        assert(s@ =~= mismatch_text(self.declared, self.component_sum));
        s
    }
}

/// Saturating six-way sum, with the clamp stated over the exact total.
fn saturating_sum6(a: u64, b: u64, c: u64, d: u64, e: u64, f: u64) -> (r: u64)
    ensures
        r == parts_sum(a, b, c, d, e, f),
{
    let s1 = a.saturating_add(b);
    let s2 = s1.saturating_add(c);
    let s3 = s2.saturating_add(d);
    let s4 = s3.saturating_add(e);
    let s5 = s4.saturating_add(f);
    s5
}

impl MemoryBudget {
    /// The sum of the component fields (everything except `declared`),
    /// saturating at `u64::MAX`.
    pub open spec fn spec_component_sum(self) -> u64 {
        parts_sum(
            self.weights,
            self.kv_pool,
            self.activation_watermark,
            self.runtime_overhead,
            self.draft_model,
            self.fragmentation_margin,
        )
    }

    /// The construction invariant: `declared == sum(components)`.
    pub open spec fn is_consistent(self) -> bool {
        self.declared == self.spec_component_sum()
    }

    /// Builds a budget from its components; `declared` is their saturating
    /// sum, so the construction invariant holds by definition.
    pub fn new(
        weights: u64,
        kv_pool: u64,
        activation_watermark: u64,
        runtime_overhead: u64,
        draft_model: u64,
        fragmentation_margin: u64,
    ) -> (r: MemoryBudget)
        ensures
            r.weights == weights,
            r.kv_pool == kv_pool,
            r.activation_watermark == activation_watermark,
            r.runtime_overhead == runtime_overhead,
            r.draft_model == draft_model,
            r.fragmentation_margin == fragmentation_margin,
            r.declared == parts_sum(
                weights,
                kv_pool,
                activation_watermark,
                runtime_overhead,
                draft_model,
                fragmentation_margin,
            ),
            r.is_consistent(),
    {
        let declared = saturating_sum6(
            weights,
            kv_pool,
            activation_watermark,
            runtime_overhead,
            draft_model,
            fragmentation_margin,
        );
        MemoryBudget {
            declared,
            weights,
            kv_pool,
            activation_watermark,
            runtime_overhead,
            draft_model,
            fragmentation_margin,
        }
    }

    /// The sum of the component fields, saturating at `u64::MAX`.
    pub fn component_sum(&self) -> (r: u64)
        ensures
            r == self.spec_component_sum(),
    {
        saturating_sum6(
            self.weights,
            self.kv_pool,
            self.activation_watermark,
            self.runtime_overhead,
            self.draft_model,
            self.fragmentation_margin,
        )
    }

    /// Checks the construction invariant `declared == sum(components)`.
    pub fn validate(&self) -> (r: Result<(), BudgetMismatch>)
        ensures
            r is Ok <==> self.is_consistent(),
            r matches Err(e) ==> e.declared == self.declared && e.component_sum
                == self.spec_component_sum(),
    {
        let component_sum = self.component_sum();
        if self.declared == component_sum {
            Ok(())
        } else {
            Err(BudgetMismatch { declared: self.declared, component_sum })
        }
    }

    /// Builds a budget from an explicit `declared` total plus components,
    /// rejecting the construction when they disagree.
    pub fn try_from_parts(
        declared: u64,
        weights: u64,
        kv_pool: u64,
        activation_watermark: u64,
        runtime_overhead: u64,
        draft_model: u64,
        fragmentation_margin: u64,
    ) -> (r: Result<MemoryBudget, BudgetMismatch>)
        ensures
            r is Ok <==> declared == parts_sum(
                weights,
                kv_pool,
                activation_watermark,
                runtime_overhead,
                draft_model,
                fragmentation_margin,
            ),
            r matches Ok(b) ==> b == (MemoryBudget {
                declared,
                weights,
                kv_pool,
                activation_watermark,
                runtime_overhead,
                draft_model,
                fragmentation_margin,
            }),
            r matches Err(e) ==> e.declared == declared && e.component_sum == parts_sum(
                weights,
                kv_pool,
                activation_watermark,
                runtime_overhead,
                draft_model,
                fragmentation_margin,
            ),
    {
        let budget = MemoryBudget {
            declared,
            weights,
            kv_pool,
            activation_watermark,
            runtime_overhead,
            draft_model,
            fragmentation_margin,
        };
        match budget.validate() {
            Ok(()) => Ok(budget),
            Err(e) => Err(e),
        }
    }
}

/// A budget built from components is consistent, and asserting its own
/// `declared` total back through `try_from_parts` reproduces it.
pub proof fn lemma_new_budget_is_consistent(
    weights: u64,
    kv_pool: u64,
    activation_watermark: u64,
    runtime_overhead: u64,
    draft_model: u64,
    fragmentation_margin: u64,
)
    ensures
        ({
            let b = MemoryBudget {
                declared: parts_sum(
                    weights,
                    kv_pool,
                    activation_watermark,
                    runtime_overhead,
                    draft_model,
                    fragmentation_margin,
                ),
                weights,
                kv_pool,
                activation_watermark,
                runtime_overhead,
                draft_model,
                fragmentation_margin,
            };
            b.is_consistent() && b.spec_component_sum() == b.declared
        }),
{
}

/// The decomposition of a measured footprint.
#[derive(Clone, Copy, PartialEq, Eq, Debug, Structural)]
pub struct MemoryBreakdown {
    /// Weights resident on device (bytes).
    pub weights: u64,
    /// KV storage across all states (bytes).
    pub kv: u64,
    /// Activation buffers (bytes).
    pub activations: u64,
    /// Allocator cache / retained device memory not yet returned (bytes).
    pub allocator_cache: u64,
}

/// The measured resident footprint of an engine instance, alongside the
/// contract it was loaded under.
#[derive(Clone, Copy, PartialEq, Eq, Debug, Structural)]
pub struct MemoryReport {
    /// Measured resident engine footprint (bytes).
    pub actual: u64,
    /// Echo of the contract `declared` total (bytes).
    pub declared: u64,
    /// Decomposition of `actual`.
    pub breakdown: MemoryBreakdown,
    /// Live recommended-working-set probe echo.
    pub metal_recommended_working_set: u64,
    /// Current wired limit in MiB; 0 when unset.
    pub wired_limit_mb: u32,
}

impl MemoryReport {
    /// Whether the measured footprint honours the contract
    /// (`actual <= declared`).
    pub fn within_budget(&self) -> (r: bool)
        ensures
            r == (self.actual <= self.declared),
    {
        self.actual <= self.declared
    }
}

} // verus!
