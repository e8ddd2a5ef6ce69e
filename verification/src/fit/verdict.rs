//! Verdict tiers, ranked remedies, and wired-limit guidance.
//!
//! A false won't-fit turns users away; a false comfortable produces the
//! mid-generation OOM the product exists to eliminate. The 0.85 headroom
//! factor is fixed policy, compared exactly (`20 * total <= 17 * usable`).
//! Wired-limit guidance is exact and revertible, and never applied
//! automatically.

use vstd::prelude::*;

use super::memory::{MIB, os_floor_bytes, ram_available_spec};
use super::{MachineProfile, Remedy, RemedyKind, RemedyView, Verdict};
use crate::text::{nat_decimal, push_str, push_u64};

verus! {

/// The verdict tier: Comfortable when `total <= 0.85 * usable`, Tight when
/// `total <= usable`, Needs tuning when the floor plan fits, else Won't fit.
pub open spec fn verdict_spec(total: u64, usable: u64, floor_plan_total: u64) -> Verdict {
    if 20 * total <= 17 * usable {
        Verdict::Comfortable
    } else if total <= usable {
        Verdict::Tight
    } else if floor_plan_total <= usable {
        Verdict::NeedsTuning
    } else {
        Verdict::WontFit
    }
}

/// The verdict tier for a plan of `total` bytes against a `usable` budget,
/// where `floor_plan_total` is the footprint of the floor plan (lowest sane
/// quant, 4k context, 8-bit KV).
pub fn verdict(total: u64, usable: u64, floor_plan_total: u64) -> (r: Verdict)
    ensures
        r == verdict_spec(total, usable, floor_plan_total),
{
    if (total as u128) * 20 <= (usable as u128) * 17 {
        Verdict::Comfortable
    } else if total <= usable {
        Verdict::Tight
    } else if floor_plan_total <= usable {
        Verdict::NeedsTuning
    } else {
        Verdict::WontFit
    }
}

/// The position of a tier from best (0) to worst (3).
pub open spec fn tier_rank(v: Verdict) -> int {
    match v {
        Verdict::Comfortable => 0,
        Verdict::Tight => 1,
        Verdict::NeedsTuning => 2,
        Verdict::WontFit => 3,
    }
}

/// A plan runs as requested exactly when it fits the usable budget, and it is
/// Won't fit exactly when neither it nor the floor plan fits.
pub proof fn lemma_verdict_never_overcommits(total: u64, usable: u64, floor_plan_total: u64)
    ensures
        (verdict_spec(total, usable, floor_plan_total) == Verdict::Comfortable
            || verdict_spec(total, usable, floor_plan_total) == Verdict::Tight) <==> total
            <= usable,
        verdict_spec(total, usable, floor_plan_total) == Verdict::Comfortable <==> 20 * total
            <= 17 * usable,
        verdict_spec(total, usable, floor_plan_total) == Verdict::WontFit <==> (total > usable
            && floor_plan_total > usable),
{
}

/// A larger plan never gets a better tier.
pub proof fn lemma_verdict_monotone_in_total(a: u64, b: u64, usable: u64, floor_plan_total: u64)
    requires
        a <= b,
    ensures
        tier_rank(verdict_spec(a, usable, floor_plan_total)) <= tier_rank(
            verdict_spec(b, usable, floor_plan_total),
        ),
{
}

/// An exact, revertible `iogpu.wired_limit_mb` proposal. Never applied
/// automatically.
#[derive(Clone, PartialEq, Eq, Debug)]
pub struct WiredLimitProposal {
    /// The proposed limit in MB, computed to respect the `os_floor`.
    pub wired_limit_mb: u32,
    /// The exact command to apply it.
    pub command: String,
    /// The exact command to revert it.
    pub revert: String,
    /// The unsupported-configuration note shown with the proposal.
    pub note: String,
}

/// The mathematical value of a [`WiredLimitProposal`].
pub struct WiredView {
    /// The proposed limit in MB.
    pub wired_limit_mb: u32,
    /// The apply command.
    pub command: Seq<char>,
    /// The revert command.
    pub revert: Seq<char>,
    /// The note.
    pub note: Seq<char>,
}

impl View for WiredLimitProposal {
    type V = WiredView;

    open spec fn view(&self) -> WiredView {
        WiredView {
            wired_limit_mb: self.wired_limit_mb,
            command: self.command@,
            revert: self.revert@,
            note: self.note@,
        }
    }
}

/// The revert command.
pub open spec fn revert_text() -> Seq<char> {
    "sudo sysctl iogpu.wired_limit_mb=0"@
}

/// The note shown with every proposal.
pub open spec fn wired_note_text() -> Seq<char> {
    "Apple does not officially support raising iogpu.wired_limit_mb; persist it via /etc/sysctl.conf or a LaunchDaemon. Revert with `sudo sysctl iogpu.wired_limit_mb=0`."@
}

/// The proposed limit in MB: the plan rounded up to whole MB, capped at the
/// `os_floor`-safe maximum rounded down; `None` when the plan exceeds that
/// maximum.
pub open spec fn wired_mb_spec(plan_bytes: u64, total_ram_bytes: u64) -> Option<u32> {
    let max_wired = ram_available_spec(total_ram_bytes);
    if plan_bytes > max_wired {
        None
    } else {
        let needed: nat = (plan_bytes / MIB) as nat + (if plan_bytes % MIB == 0 {
            0nat
        } else {
            1nat
        });
        let max_mb: nat = max_wired / (MIB as nat);
        Some(
            (if needed <= max_mb {
                needed
            } else {
                max_mb
            }) as u32,
        )
    }
}

/// The full proposal for a plan.
pub open spec fn wired_spec(plan_bytes: u64, total_ram_bytes: u64) -> Option<WiredView> {
    match wired_mb_spec(plan_bytes, total_ram_bytes) {
        None => None,
        Some(mb) => Some(
            WiredView {
                wired_limit_mb: mb,
                command: "sudo sysctl iogpu.wired_limit_mb="@ + nat_decimal(mb as nat),
                revert: revert_text(),
                note: wired_note_text(),
            },
        ),
    }
}

/// Proposes a wired-limit raise that lets `plan_bytes` fit while leaving the
/// `os_floor` of system RAM un-wired, or `None` when even the maximum safe
/// wired limit cannot fit the plan. Never sets the value.
pub fn wired_limit_proposal(plan_bytes: u64, machine: &MachineProfile) -> (r: Option<
    WiredLimitProposal,
>)
    ensures
        match wired_spec(plan_bytes, machine.total_ram_bytes) {
            None => r is None,
            Some(w) => r matches Some(p) && p@ == w,
        },
{
    let os_floor = os_floor_bytes(machine.total_ram_bytes);
    let max_wired = machine.total_ram_bytes.saturating_sub(os_floor);
    if plan_bytes > max_wired {
        return None;
    }
    let needed_mb = plan_bytes / MIB + if plan_bytes % MIB == 0 {
        0
    } else {
        1
    };
    let max_mb = max_wired / MIB;
    let n_mb = if needed_mb <= max_mb {
        needed_mb
    } else {
        max_mb
    } as u32;
    let mut command = String::new();
    push_str(&mut command, "sudo sysctl iogpu.wired_limit_mb=");
    push_u64(&mut command, n_mb as u64);
    let revert = "sudo sysctl iogpu.wired_limit_mb=0".to_owned();
    let note = "Apple does not officially support raising iogpu.wired_limit_mb; persist it via /etc/sysctl.conf or a LaunchDaemon. Revert with `sudo sysctl iogpu.wired_limit_mb=0`.".to_owned();
    Some(WiredLimitProposal { wired_limit_mb: n_mb, command, revert, note })
}

/// A proposal leaves the `os_floor` un-wired: the proposed limit, in bytes,
/// never exceeds `total_ram - os_floor` (for limits that fit a `u32`, as any
/// machine's RAM does), and covers the plan whenever its MB round-up fits.
pub proof fn lemma_wired_respects_os_floor(plan_bytes: u64, total_ram_bytes: u64)
    requires
        ram_available_spec(total_ram_bytes) / (MIB as nat) <= u32::MAX,
    ensures
        wired_mb_spec(plan_bytes, total_ram_bytes) matches Some(mb) ==> mb as nat * (MIB as nat)
            <= ram_available_spec(total_ram_bytes),
        wired_mb_spec(plan_bytes, total_ram_bytes) matches Some(mb) ==> (mb as nat * (MIB as nat)
            >= plan_bytes || mb as nat == ram_available_spec(total_ram_bytes) / (MIB as nat)),
{
    let max_wired = ram_available_spec(total_ram_bytes);
    if plan_bytes <= max_wired {
        let max_mb = max_wired / (MIB as nat);
        vstd::arithmetic::div_mod::lemma_fundamental_div_mod(max_wired as int, MIB as int);
        vstd::arithmetic::div_mod::lemma_fundamental_div_mod(plan_bytes as int, MIB as int);
        let needed: nat = (plan_bytes / MIB) as nat + (if plan_bytes % MIB == 0 {
            0nat
        } else {
            1nat
        });
        if needed <= max_mb {
            assert(needed * (MIB as nat) <= max_mb * (MIB as nat)) by (nonlinear_arith)
                requires
                    needed <= max_mb,
            ;
        }
    }
}

/// Whether `plan_bytes` can be wired for the GPU while respecting the
/// `os_floor` on this machine.
pub fn wired_limit_safe_for(plan_bytes: u64, machine: &MachineProfile) -> (r: bool)
    ensures
        r == (plan_bytes <= ram_available_spec(machine.total_ram_bytes)),
{
    let os_floor = os_floor_bytes(machine.total_ram_bytes);
    plan_bytes <= machine.total_ram_bytes.saturating_sub(os_floor)
}

/// The five-step ladder, ranked by expected quality impact.
pub open spec fn remedy_ladder(model_ref: Seq<char>) -> Seq<RemedyView> {
    seq![
        RemedyView {
            rank: 1,
            kind: RemedyKind::OfficialQuant,
            command: "drakkar pull "@ + model_ref + " --quant 4bit-g64"@,
            effect: "Use an official 4-bit artifact; smallest quality cost."@,
        },
        RemedyView {
            rank: 2,
            kind: RemedyKind::OnDeviceQuant,
            command: "drakkar convert "@ + model_ref + " --quant 4bit-g64"@,
            effect: "Quantize on device to the store when no official quant exists."@,
        },
        RemedyView {
            rank: 3,
            kind: RemedyKind::Kv8Bit,
            command: "drakkar run "@ + model_ref + " --kv-bits 8"@,
            effect: "Halve KV memory at negligible quality cost."@,
        },
        RemedyView {
            rank: 4,
            kind: RemedyKind::ReducedContext,
            command: "drakkar run "@ + model_ref + " --ctx 8192"@,
            effect: "Lower the context ceiling to fit the KV pool."@,
        },
        RemedyView {
            rank: 5,
            kind: RemedyKind::KvSubByte,
            command: "drakkar run "@ + model_ref + " --kv-bits 4"@,
            effect: "Quarter KV memory; measurable quality cost on long context."@,
        },
    ]
}

/// The opt-in wired-limit step, always last.
pub open spec fn wired_remedy(w: WiredView) -> RemedyView {
    RemedyView {
        rank: 6,
        kind: RemedyKind::WiredLimitRaise,
        command: w.command,
        effect: "Raise the GPU wired limit to "@ + nat_decimal(w.wired_limit_mb as nat)
            + " MB (opt-in; Apple does not support it; revert with `"@ + w.revert + "`)."@,
    }
}

/// The remedy plan: the ladder, then the wired-limit raise when proposed.
pub open spec fn remedies_spec(model_ref: Seq<char>, wired: Option<WiredView>) -> Seq<RemedyView> {
    match wired {
        Some(w) => remedy_ladder(model_ref).push(wired_remedy(w)),
        None => remedy_ladder(model_ref),
    }
}

/// The views of a list of remedies.
pub open spec fn remedies_view(v: Seq<Remedy>) -> Seq<RemedyView> {
    v.map_values(|r: Remedy| r@)
}

fn command_for(prefix: &str, model_ref: &str, suffix: &str) -> (r: String)
    ensures
        r@ == prefix@ + model_ref@ + suffix@,
{
    let mut s = String::new();
    push_str(&mut s, prefix);
    push_str(&mut s, model_ref);
    push_str(&mut s, suffix);
    s
}

/// The remedy ladder for a model that needs tuning, ranked by expected
/// quality impact: official smaller quant, on-device quantization, 8-bit KV,
/// reduced context, sub-8-bit KV, and the opt-in wired-limit raise last.
pub fn remedies(model_ref: &str, wired: Option<&WiredLimitProposal>) -> (r: Vec<Remedy>)
    ensures
        remedies_view(r@) == remedies_spec(
            model_ref@,
            match wired {
                Some(w) => Some(w@),
                None => None,
            },
        ),
{
    let mut plan: Vec<Remedy> = Vec::new();
    plan.push(
        Remedy {
            rank: 1,
            kind: RemedyKind::OfficialQuant,
            command: command_for("drakkar pull ", model_ref, " --quant 4bit-g64"),
            effect: "Use an official 4-bit artifact; smallest quality cost.".to_owned(),
        },
    );
    plan.push(
        Remedy {
            rank: 2,
            kind: RemedyKind::OnDeviceQuant,
            command: command_for("drakkar convert ", model_ref, " --quant 4bit-g64"),
            effect: "Quantize on device to the store when no official quant exists.".to_owned(),
        },
    );
    plan.push(
        Remedy {
            rank: 3,
            kind: RemedyKind::Kv8Bit,
            command: command_for("drakkar run ", model_ref, " --kv-bits 8"),
            effect: "Halve KV memory at negligible quality cost.".to_owned(),
        },
    );
    plan.push(
        Remedy {
            rank: 4,
            kind: RemedyKind::ReducedContext,
            command: command_for("drakkar run ", model_ref, " --ctx 8192"),
            effect: "Lower the context ceiling to fit the KV pool.".to_owned(),
        },
    );
    plan.push(
        Remedy {
            rank: 5,
            kind: RemedyKind::KvSubByte,
            command: command_for("drakkar run ", model_ref, " --kv-bits 4"),
            effect: "Quarter KV memory; measurable quality cost on long context.".to_owned(),
        },
    );
    assert(remedies_view(plan@) =~= remedy_ladder(model_ref@));
    match wired {
        Some(w) => {
            let mut effect = String::new();
            push_str(&mut effect, "Raise the GPU wired limit to ");
            push_u64(&mut effect, w.wired_limit_mb as u64);
            push_str(&mut effect, " MB (opt-in; Apple does not support it; revert with `");
            push_str(&mut effect, w.revert.as_str());
            push_str(&mut effect, "`).");
            let ghost before = plan@;
            plan.push(
                Remedy {
                    rank: 6,
                    kind: RemedyKind::WiredLimitRaise,
                    command: w.command.clone(),
                    effect,
                },
            );
            assert(remedies_view(plan@) =~= remedies_view(before).push(wired_remedy(w@)));
        },
        None => {},
    }
    plan
}

/// The plan is ranked 1, 2, ... in order, and only its last step can be the
/// wired-limit raise.
pub proof fn lemma_remedies_ranked(model_ref: Seq<char>, wired: Option<WiredView>)
    ensures
        forall|i: int|
            0 <= i < remedies_spec(model_ref, wired).len() ==> #[trigger] remedies_spec(
                model_ref,
                wired,
            )[i].rank == i + 1,
        forall|i: int|
            0 <= i < remedies_spec(model_ref, wired).len() - 1 ==> #[trigger] remedies_spec(
                model_ref,
                wired,
            )[i].kind != RemedyKind::WiredLimitRaise,
        remedies_spec(model_ref, wired).len() == (if wired is Some {
            6int
        } else {
            5int
        }),
{
}

/// The full verdict outcome for a plan: the tier, the ranked remedies (empty
/// when it fits as requested), the nearest sibling to suggest on Won't fit,
/// and any wired-limit proposal.
#[derive(Clone, PartialEq, Debug)]
pub struct VerdictOutcome {
    /// The tier.
    pub verdict: Verdict,
    /// The ranked remedy plan (empty for Comfortable/Tight).
    pub remedies: Vec<Remedy>,
    /// The nearest sibling model that fits (Won't fit only).
    pub nearest_sibling: Option<String>,
    /// The wired-limit proposal, when a raise would help.
    pub wired_limit: Option<WiredLimitProposal>,
}

/// Assembles the full verdict outcome.
pub fn assess(
    total: u64,
    usable: u64,
    floor_plan_total: u64,
    model_ref: &str,
    machine: &MachineProfile,
    sibling_hint: Option<String>,
) -> (r: VerdictOutcome)
    ensures
        r.verdict == verdict_spec(total, usable, floor_plan_total),
        r.verdict == Verdict::Comfortable || r.verdict == Verdict::Tight ==> r.wired_limit is None
            && r.remedies@.len() == 0,
        r.verdict == Verdict::NeedsTuning || r.verdict == Verdict::WontFit ==> (match wired_spec(
            total,
            machine.total_ram_bytes,
        ) {
            None => r.wired_limit is None,
            Some(w) => r.wired_limit matches Some(p) && p@ == w,
        }) && remedies_view(r.remedies@) == remedies_spec(
            model_ref@,
            wired_spec(total, machine.total_ram_bytes),
        ),
        r.nearest_sibling == (if r.verdict == Verdict::WontFit {
            sibling_hint
        } else {
            None
        }),
{
    let tier = verdict(total, usable, floor_plan_total);
    let needs = match tier {
        Verdict::NeedsTuning | Verdict::WontFit => true,
        _ => false,
    };
    let wired_limit = if needs {
        wired_limit_proposal(total, machine)
    } else {
        None
    };
    let remedies = if needs {
        remedies(model_ref, wired_limit.as_ref())
    } else {
        Vec::new()
    };
    let nearest_sibling = match tier {
        Verdict::WontFit => sibling_hint,
        _ => None,
    };
    VerdictOutcome { verdict: tier, remedies, nearest_sibling, wired_limit }
}

} // verus!
