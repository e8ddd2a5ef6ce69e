use drakkar::artifact::{LayoutClass, MoeTopology};
use drakkar::capabilities::ChipId;
use drakkar::error::{DkError, ErrorCode};
use drakkar::fit::context::{CTX_SEARCH_CAP, add_paged, max_fitting_ctx};
use drakkar::fit::memory::{BindingConstraint, GIB, MIB, effective_budget, os_floor_bytes};
use drakkar::fit::metadata::{
    ParamDims, RepoFile, descriptor_from_doc, estimate_params, parse_model_descriptor,
};
use drakkar::json::{JsonDoc, JsonItem, JsonLeaf};
use drakkar::fit::model::{ModelDescriptor, TensorEntry};
use drakkar::fit::verdict::{
    assess, remedies, verdict, wired_limit_proposal, wired_limit_safe_for,
};
use drakkar::fit::{BudgetSource, MachineProfile, RemedyKind, RequestShape, Verdict, fit_schema};

fn machine(ram_gib: u64, budget_gib: u64) -> MachineProfile {
    MachineProfile {
        chip: ChipId { name: "Apple M4 Pro".to_owned(), gpu_cores: 20 },
        total_ram_bytes: ram_gib * GIB,
        budget_bytes: budget_gib * GIB,
        budget_source: BudgetSource::Probe,
        wired_limit_mb: 0,
        free_bytes: 0,
        macos: (26, 2),
        nax_tensor_ops: false,
    }
}

const DENSE: &str = r#"{
    "model_type": "qwen3",
    "num_hidden_layers": 36,
    "hidden_size": 4096,
    "num_attention_heads": 32,
    "num_key_value_heads": 8,
    "head_dim": 128,
    "vocab_size": 151936,
    "intermediate_size": 12288,
    "max_position_embeddings": 40960,
    "tie_word_embeddings": false
}"#;

fn dense_with(extra: &str) -> Vec<u8> {
    let body = DENSE.trim_end().trim_end_matches('}');
    format!("{body}, {extra} }}").into_bytes()
}

fn dense_replacing(key: &str, value: &str) -> Vec<u8> {
    let mut out = String::new();
    for line in DENSE.lines() {
        if line.trim_start().starts_with(&format!("\"{key}\"")) {
            let comma = if line.trim_end().ends_with(',') { "," } else { "" };
            out.push_str(&format!("    \"{key}\": {value}{comma}\n"));
        } else {
            out.push_str(line);
            out.push('\n');
        }
    }
    out.into_bytes()
}

fn index_with_total(total: u64) -> Vec<u8> {
    format!(
        "{{\"metadata\": {{\"total_size\": {total}}}, \"weight_map\": {{\"model.embed_tokens.weight\": \"model-00001-of-00002.safetensors\"}}}}"
    )
    .into_bytes()
}

fn parse(config: &[u8], index: Option<&[u8]>, quant: Option<&[u8]>, files: &[RepoFile]) -> Result<ModelDescriptor, DkError> {
    parse_model_descriptor("org/m", config, index, quant, files)
}

fn parsed(config: &[u8]) -> ModelDescriptor {
    match parse(config, None, None, &[]) {
        Ok(d) => d,
        Err(e) => panic!("unexpected error: {}", e.describe()),
    }
}

fn rejected(config: &[u8], index: Option<&[u8]>) -> DkError {
    match parse(config, index, None, &[]) {
        Ok(_) => panic!("expected models.invalid_metadata"),
        Err(e) => e,
    }
}

#[test]
fn request_defaults() {
    let r = RequestShape::default();
    assert_eq!(r.concurrency, 1);
    assert_eq!(r.kv_bits, 16); // KV fp16
    assert_eq!(r.target_ctx, 32_768); // display cap 32k
    assert!(!r.draft_model);
}

#[test]
fn schema_tag_is_drakkar_fit_1() {
    assert_eq!(fit_schema().name(), "drakkar.fit");
    assert_eq!(fit_schema().major(), Some(1));
}

#[test]
fn verdict_thresholds_use_the_fixed_0_85_factor() {
    let usable = 100;
    assert_eq!(verdict(80, usable, 40), Verdict::Comfortable); // 80 <= 85
    assert_eq!(verdict(85, usable, 40), Verdict::Comfortable); // exactly 0.85
    assert_eq!(verdict(90, usable, 40), Verdict::Tight); // 85 < 90 <= 100
    assert_eq!(verdict(100, usable, 40), Verdict::Tight); // exactly usable
    assert_eq!(verdict(120, usable, 40), Verdict::NeedsTuning); // floor fits
    assert_eq!(verdict(120, usable, 150), Verdict::WontFit); // even floor exceeds
}

#[test]
fn verdict_is_exact_at_large_byte_counts() {
    let usable = 40 * GIB;
    let edge = usable / 20 * 17; // usable is a multiple of 20
    assert_eq!(verdict(edge, usable, 0), Verdict::Comfortable);
    assert_eq!(verdict(edge + 1, usable, 0), Verdict::Tight);
    assert_eq!(verdict(u64::MAX, u64::MAX, 0), Verdict::Tight);
}

#[test]
fn remedies_are_fe19_ordered_and_wired_is_last_and_opt_in() {
    let m = machine(48, 36);
    let wired = wired_limit_proposal(20 * GIB, &m);
    let plan = remedies("qwen3:8b", wired.as_ref());
    let ranks: Vec<u8> = plan.iter().map(|r| r.rank).collect();
    assert_eq!(ranks, vec![1, 2, 3, 4, 5, 6]);
    let last = plan.last().unwrap();
    assert_eq!(last.kind, RemedyKind::WiredLimitRaise);
    assert!(last.effect.contains("opt-in"));
    assert_eq!(plan[0].command, "drakkar pull qwen3:8b --quant 4bit-g64");
    assert_eq!(plan[2].command, "drakkar run qwen3:8b --kv-bits 8");
    let plan = remedies("qwen3:8b", None);
    assert_eq!(plan.len(), 5);
    assert_ne!(plan.last().unwrap().kind, RemedyKind::WiredLimitRaise);
}

#[test]
fn wired_proposal_respects_os_floor() {
    let m = machine(48, 36); // os_floor 8 GiB -> max_wired 40 GiB
    let p = wired_limit_proposal(37 * GIB, &m).unwrap();
    let max_mb = (40 * GIB / MIB) as u32;
    assert!(p.wired_limit_mb <= max_mb);
    assert!(p.wired_limit_mb >= (37 * GIB / MIB) as u32);
    assert_eq!(p.wired_limit_mb, 37 * 1024);
    assert_eq!(p.command, format!("sudo sysctl iogpu.wired_limit_mb={}", p.wired_limit_mb));
    assert_eq!(p.revert, "sudo sysctl iogpu.wired_limit_mb=0");
    assert!(wired_limit_proposal(45 * GIB, &m).is_none());
    assert!(wired_limit_safe_for(40 * GIB, &m));
    assert!(!wired_limit_safe_for(40 * GIB + 1, &m));
}

#[test]
fn wired_proposal_rounds_a_partial_megabyte_up() {
    let m = machine(48, 36);
    assert_eq!(wired_limit_proposal(MIB + 1, &m).unwrap().wired_limit_mb, 2);
    assert_eq!(wired_limit_proposal(MIB, &m).unwrap().wired_limit_mb, 1);
}

#[test]
fn wont_fit_outcome_carries_nearest_sibling() {
    let m = machine(16, 12);
    let outcome = assess(30 * GIB, 8 * GIB, 20 * GIB, "llama3.3:70b", &m, Some("qwen3:30b-a3b".to_owned()));
    assert_eq!(outcome.verdict, Verdict::WontFit);
    assert_eq!(outcome.nearest_sibling.as_deref(), Some("qwen3:30b-a3b"));
}

#[test]
fn comfortable_outcome_has_no_remedies_or_sibling() {
    let m = machine(48, 36);
    let outcome = assess(10, 100, 5, "qwen3:8b", &m, Some("x".to_owned()));
    assert_eq!(outcome.verdict, Verdict::Comfortable);
    assert!(outcome.remedies.is_empty());
    assert!(outcome.nearest_sibling.is_none());
    assert!(outcome.wired_limit.is_none());
}

#[test]
fn needs_tuning_outcome_carries_the_ladder() {
    let m = machine(48, 36);
    let outcome = assess(120, 100, 40, "qwen3:8b", &m, Some("x".to_owned()));
    assert_eq!(outcome.verdict, Verdict::NeedsTuning);
    assert!(outcome.remedies.len() >= 5);
    assert_eq!(outcome.remedies[0].rank, 1);
    assert!(outcome.nearest_sibling.is_none());
}

#[test]
fn os_floor_binding() {
    // Large budget, small RAM: the os_floor (RAM) constraint binds.
    assert_eq!(effective_budget(16 * GIB, 14 * GIB), (12 * GIB, BindingConstraint::OsFloor));
    // Small budget, large RAM: the GPU budget binds.
    assert_eq!(effective_budget(64 * GIB, 40 * GIB), (40 * GIB, BindingConstraint::GpuBudget));
    // os_floor tiers.
    assert_eq!(os_floor_bytes(16 * GIB), 4 * GIB);
    assert_eq!(os_floor_bytes(36 * GIB), 6 * GIB);
    assert_eq!(os_floor_bytes(64 * GIB), 8 * GIB);
    assert_eq!(os_floor_bytes(128 * GIB), 12 * GIB);
}

#[test]
fn exact_weight_bytes_sums_the_index() {
    let mut model = parsed(DENSE.as_bytes());
    assert_eq!(model.exact_weight_bytes(), None);
    model.tensors = vec![
        TensorEntry { name: "a".to_owned(), dtype: "U8".to_owned(), bytes: 1000 },
        TensorEntry { name: "b".to_owned(), dtype: "U8".to_owned(), bytes: 2345 },
    ];
    assert_eq!(model.exact_weight_bytes(), Some(3345));
}

#[test]
fn metadata_parser_reads_a_dense_config() {
    let d = parse_model_descriptor("Qwen/Qwen3-8B", DENSE.as_bytes(), None, None, &[]).ok().unwrap();
    assert_eq!(d.reference, "Qwen/Qwen3-8B");
    assert_eq!(d.arch, "qwen3");
    assert_eq!(d.layers, 36);
    assert_eq!(d.hidden, 4096);
    assert_eq!(d.heads, 32);
    assert_eq!(d.kv_heads, 8);
    assert_eq!(d.head_dim, 128);
    assert_eq!(d.vocab, 151936);
    assert_eq!(d.advertised_ctx, 40960);
    assert_eq!(d.quant.bits, 16); // unquantized default
    assert!(d.moe.is_none());
    assert_eq!(d.layout_classes.len(), 36);
    assert!(d.layout_classes.iter().all(|c| matches!(c, LayoutClass::Global)));
    assert_eq!(d.params_total, d.params_active);
    assert!((7..=9).contains(&(d.params_total / 1_000_000_000)), "params {}", d.params_total);
}

#[test]
fn metadata_parser_index_present_is_exact() {
    let total = 16_060_522_496u64;
    let idx = index_with_total(total);
    let d = parse(DENSE.as_bytes(), Some(&idx), None, &[]).ok().unwrap();
    assert_eq!(d.exact_weight_bytes(), Some(total));
    let e = parse(DENSE.as_bytes(), None, None, &[]).ok().unwrap();
    assert_eq!(e.exact_weight_bytes(), None);
    assert!(e.tensors.is_empty());
}

#[test]
fn metadata_parser_totals_repo_files() {
    let files = vec![
        RepoFile { name: "a.safetensors".to_owned(), bytes: 1000 },
        RepoFile { name: "b.safetensors".to_owned(), bytes: 2345 },
    ];
    let d = parse(DENSE.as_bytes(), None, None, &files).ok().unwrap();
    assert_eq!(d.repo_total_bytes, 3345);
}

#[test]
fn metadata_parser_detects_moe() {
    let cfg = r#"{
        "model_type": "qwen3_moe",
        "num_hidden_layers": 48,
        "hidden_size": 2048,
        "num_attention_heads": 32,
        "num_key_value_heads": 4,
        "vocab_size": 151936,
        "intermediate_size": 768,
        "num_local_experts": 128,
        "num_experts_per_tok": 8
    }"#;
    let d = parsed(cfg.as_bytes());
    let moe = d.moe.expect("moe topology");
    assert_eq!(moe.num_experts, 128);
    assert_eq!(moe.experts_per_token, 8);
    assert!(d.params_active < d.params_total);
}

#[test]
fn metadata_parser_detects_sliding_window() {
    let d = parsed(&dense_with("\"sliding_window\": 4096"));
    assert!(d
        .layout_classes
        .iter()
        .all(|c| matches!(c, LayoutClass::SlidingWindow { window: 4096, .. })));
}

#[test]
fn reject_absurd_layer_count() {
    let err = rejected(&dense_replacing("num_hidden_layers", "10000000"), None);
    assert_eq!(err.code(), ErrorCode::ModelsInvalidMetadata);
}

#[test]
fn reject_negative_dims() {
    let err = rejected(&dense_replacing("hidden_size", "-4096"), None);
    assert_eq!(err.code(), ErrorCode::ModelsInvalidMetadata);
    assert!(err.message.contains("hidden_size"));
}

#[test]
fn reject_overflow_tensor_size() {
    let idx = index_with_total(u64::MAX);
    let err = rejected(DENSE.as_bytes(), Some(&idx));
    assert_eq!(err.code(), ErrorCode::ModelsInvalidMetadata);
}

#[test]
fn truncated_index_errors() {
    let truncated = b"{ \"metadata\": { \"total_size\": 123";
    let err = rejected(DENSE.as_bytes(), Some(truncated));
    assert_eq!(err.code(), ErrorCode::ModelsInvalidMetadata);
    let no_total = b"{ \"weight_map\": {} }";
    assert_eq!(rejected(DENSE.as_bytes(), Some(no_total)).code(), ErrorCode::ModelsInvalidMetadata);
}

#[test]
fn truncated_config_errors() {
    let truncated = b"{ \"model_type\": \"qwen3\", \"num_hidden_layers\":";
    let err = rejected(truncated, None);
    assert_eq!(err.code(), ErrorCode::ModelsInvalidMetadata);
    assert!(err.message.contains("config.json"));
}

#[test]
fn a_config_that_is_not_an_object_errors() {
    assert_eq!(rejected(b"[1, 2, 3]", None).code(), ErrorCode::ModelsInvalidMetadata);
}

#[test]
fn missing_required_field_errors() {
    let no_arch = br#"{"num_hidden_layers": 1, "hidden_size": 8, "num_attention_heads": 1, "vocab_size": 4}"#;
    let err = rejected(no_arch, None);
    assert_eq!(err.code(), ErrorCode::ModelsInvalidMetadata);
    assert!(err.describe().contains("model_type"), "{}", err.describe());
}

#[test]
fn parses_a_separate_quant_config() {
    let quant = br#"{"quant_method": "mlx", "bits": 4, "group_size": 64}"#;
    let d = parse(DENSE.as_bytes(), None, Some(quant), &[]).ok().unwrap();
    assert_eq!(d.quant.bits, 4);
    assert_eq!(d.quant.group, 64);
    assert_eq!(d.quant.scheme, "mlx");
}

#[test]
fn estimate_counts_a_tiny_dense_model_exactly() {
    let dims = ParamDims {
        layers: 1,
        hidden: 2,
        heads: 1,
        kv_heads: 1,
        head_dim: 2,
        vocab: 3,
        intermediate: 4,
        tied_embeddings: true,
    };
    // attention 16, MLP 24, tied embeddings 6.
    assert_eq!(estimate_params(&dims, None), (46, 46));
    let moe = MoeTopology { num_experts: 4, experts_per_token: 1, shared_experts: 0 };
    assert_eq!(estimate_params(&dims, Some(moe)), (118, 46));
    let untied = ParamDims { tied_embeddings: false, ..dims };
    assert_eq!(estimate_params(&untied, None), (52, 52));
}

#[test]
fn solved_ceiling_actually_fits_and_next_token_does_not() {
    let kv = |c: u32| u64::from(c) * 144 * 1024;
    let budget = 4 * GIB;
    let ctx = max_fitting_ctx(budget, CTX_SEARCH_CAP, kv);
    assert!(kv(ctx) <= budget);
    assert!(kv(ctx + 1) > budget);
    assert_eq!(ctx, 29_127);
}

#[test]
fn context_search_edges() {
    // Nothing fits: zero.
    assert_eq!(max_fitting_ctx(10, CTX_SEARCH_CAP, |c: u32| u64::from(c) * 100 + 11), 0);
    // Everything fits: the cap.
    assert_eq!(max_fitting_ctx(u64::MAX, CTX_SEARCH_CAP, |c: u32| u64::from(c)), CTX_SEARCH_CAP);
    // A constant (recurrent-state) footprint fits at every context or none.
    assert_eq!(max_fitting_ctx(500, 1000, |_c: u32| 500), 1000);
    // A sliding-window kink: flat past the window.
    let swa = |c: u32| u64::from(c.min(4096)) * 10;
    assert_eq!(max_fitting_ctx(40_960, 100_000, swa), 100_000);
    assert_eq!(max_fitting_ctx(40_950, 100_000, swa), 4095);
    assert_eq!(max_fitting_ctx(u64::MAX, u32::MAX, |c: u32| u64::from(c)), u32::MAX);
}

#[test]
fn paged_metadata_term_is_added_when_requested() {
    assert_eq!(add_paged(1000, 33, false), 1000);
    assert_eq!(add_paged(1000, 33, true), 1000 + 2 * 96);
    assert_eq!(add_paged(1000, 32, true), 1000 + 96);
    assert_eq!(add_paged(1000, 0, true), 1000);
    assert_eq!(add_paged(u64::MAX - 10, 1, true), u64::MAX);
}

#[test]
fn ceilings_are_monotone_in_precision() {
    // Qwen3-8B-shaped per-token KV: 36 layers, 8 KV heads of 128 at 2/1/0.5
    // bytes per element plus the 64-group scale overhead below 16 bits.
    let per_token = |bits: u64| -> u64 {
        let base = 2 * 36 * 8 * 128 * bits / 8;
        if bits < 16 { base + base / 32 } else { base }
    };
    let budget = 20 * GIB;
    let fp16 = max_fitting_ctx(budget, CTX_SEARCH_CAP, |c: u32| u64::from(c) * per_token(16));
    let kv8 = max_fitting_ctx(budget, CTX_SEARCH_CAP, |c: u32| u64::from(c) * per_token(8));
    let kv4 = max_fitting_ctx(budget, CTX_SEARCH_CAP, |c: u32| u64::from(c) * per_token(4));
    assert!(kv4 >= kv8 && kv8 >= fp16, "{kv4} {kv8} {fp16}");
    assert_eq!(fp16, (budget / per_token(16)) as u32);
}

#[test]
fn descriptor_from_doc_reads_an_already_parsed_config() {
    let e = descriptor_from_doc("org/m", &JsonDoc::NotObject, None, None, 0).err().unwrap();
    assert_eq!(e.message, "metadata for 'org/m' is malformed: config.json is not a JSON object");
    let int = |n: u64| JsonItem::Leaf(JsonLeaf::Number(Some(n), Some(n as i64)));
    let doc = JsonDoc::Root(vec![
        ("head_dim".to_owned(), int(128)),
        ("hidden_size".to_owned(), int(4096)),
        ("intermediate_size".to_owned(), int(12288)),
        ("max_position_embeddings".to_owned(), int(40960)),
        ("model_type".to_owned(), JsonItem::Leaf(JsonLeaf::Str("qwen3".to_owned()))),
        ("num_attention_heads".to_owned(), int(32)),
        ("num_hidden_layers".to_owned(), int(36)),
        ("num_key_value_heads".to_owned(), int(8)),
        ("tie_word_embeddings".to_owned(), JsonItem::Leaf(JsonLeaf::Bool(false))),
        ("vocab_size".to_owned(), int(151936)),
    ]);
    let d = descriptor_from_doc("Qwen/Qwen3-8B", &doc, None, None, 7).ok().unwrap();
    let parsed = parse_model_descriptor("Qwen/Qwen3-8B", DENSE.as_bytes(), None, None, &[]).ok().unwrap();
    assert_eq!(d.arch, "qwen3");
    assert_eq!(d.layers, 36);
    assert_eq!(d.params_total, parsed.params_total);
    assert_eq!(d.advertised_ctx, 40960);
    assert_eq!(d.repo_total_bytes, 7);
}
