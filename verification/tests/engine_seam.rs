use drakkar::engine::actor::{
    ActorState, LoopStep, actor_gone, after_dispatch, internal_panic, is_stall, rejection_error,
};
use drakkar::engine::backend::LogitsRef;
use drakkar::engine::kv::{
    BlockRef, ContiguousKvPool, EvictPolicy, EvictReport, HashChain, KvPool, PoolError,
};
use drakkar::engine::mock::{MockBackend, stub_artifact};
use drakkar::error::{ContextValue, ErrorCode};
use drakkar::exec::{BlockTableRef, DecodeBatch, DecodeEntry, PrefillChunk, SamplerStateRef};
use drakkar::ids::{SeqId, Sha256, TokenId};
use drakkar::memory::MemoryBudget;
use drakkar::time::Duration;

// 1000-token pool at 100 bytes/token = 100_000 bytes.
fn pool() -> ContiguousKvPool {
    ContiguousKvPool::new(100_000, 100)
}

#[test]
fn admit_succeeds_within_budget() {
    let mut p = pool();
    let r = p.request_admission(SeqId(1), 400).unwrap();
    assert_eq!(r.tokens_reserved, 400);
    assert_eq!(p.stats().tokens_reserved, 400);
    assert_eq!(p.stats().sequences_active, 1);
}

#[test]
fn admit_rejects_with_max_admissible() {
    let mut p = pool();
    p.request_admission(SeqId(1), 700).unwrap(); // 700 of 1000 used
    let rej = p.request_admission(SeqId(2), 400).unwrap_err(); // only 300 free
    assert_eq!(rej.max_admissible, 300);
}

#[test]
fn lookup_prefix_returns_none_in_v0_1() {
    let p = pool();
    assert!(p.lookup_prefix(&HashChain::default()).is_none());
}

#[test]
fn seal_frees_regardless_of_donate() {
    for donate in [true, false] {
        let mut p = pool();
        p.request_admission(SeqId(1), 500).unwrap();
        p.seal(SeqId(1), donate);
        assert_eq!(p.stats().tokens_reserved, 0);
        assert_eq!(p.stats().sequences_active, 0);
        // The freed capacity is fully re-admissible.
        assert!(p.request_admission(SeqId(2), 1000).is_ok());
    }
}

#[test]
fn never_allocates_beyond_pool_bytes() {
    let mut p = pool();
    assert!(p.request_admission(SeqId(1), 1000).is_ok()); // exactly full
    assert!(p.request_admission(SeqId(2), 1).is_err()); // one token over the contract
    assert!(p.reserved_bytes() <= p.pool_bytes());
    assert_eq!(p.reserved_bytes(), 100_000);
}

#[test]
fn append_requires_admission_and_evict_is_a_noop() {
    let mut p = pool();
    assert_eq!(p.append(SeqId(9), BlockRef(0)), Err(PoolError::SequenceNotAdmitted(SeqId(9))));
    p.request_admission(SeqId(1), 100).unwrap();
    assert!(p.append(SeqId(1), BlockRef(0)).is_ok());
    assert_eq!(p.evict(EvictPolicy::Ttl), EvictReport::default());
}

#[test]
fn readmitting_a_sequence_replaces_its_reservation() {
    let mut p = pool();
    p.request_admission(SeqId(1), 600).unwrap();
    // The old reservation still counts against the free bytes when the same
    // sequence asks again; an admitted request then replaces it.
    assert_eq!(p.request_admission(SeqId(1), 900).unwrap_err().max_admissible, 400);
    assert_eq!(p.request_admission(SeqId(1), 400).unwrap().tokens_reserved, 400);
    assert_eq!(p.stats().tokens_reserved, 400);
    assert_eq!(p.stats().sequences_active, 1);
    assert_eq!(p.stats().tokens_free, 600);
    assert_eq!(p.stats().tokens_total, 1000);
}

#[test]
fn sealing_an_unknown_sequence_changes_nothing() {
    let mut p = pool();
    p.request_admission(SeqId(1), 250).unwrap();
    p.seal(SeqId(7), true);
    assert_eq!(p.stats().tokens_reserved, 250);
    assert_eq!(p.reserved_tokens(), 250);
}

#[test]
fn a_zero_byte_token_rate_admits_everything() {
    let mut p = ContiguousKvPool::new(100_000, 0);
    assert_eq!(p.stats().tokens_total, usize::MAX);
    assert!(p.request_admission(SeqId(1), 1_000_000).is_ok());
    assert_eq!(p.reserved_bytes(), 0);
}

#[test]
fn pool_error_message_names_the_sequence() {
    assert_eq!(PoolError::SequenceNotAdmitted(SeqId(9)).message(), "sequence 9 was not admitted to the KV pool");
}

#[test]
fn mock_backend_drives_the_seam_end_to_end() {
    let mut backend = MockBackend::new();
    let artifact = stub_artifact();
    let budget = MemoryBudget::new(1000, 500, 100, 1200, 0, 81);
    let handle = backend.load(artifact.digest, budget);
    assert_eq!(handle.artifact, artifact.digest);
    assert_eq!(handle.instance, 1);

    assert!(backend.kv().request_admission(SeqId(0), 128).is_ok());

    let prefill = backend.prefill(&PrefillChunk {
        seq: SeqId(0),
        tokens: vec![TokenId(1), TokenId(2), TokenId(3)],
        position_offset: 0,
        block_table: BlockTableRef(0),
        is_last: true,
    });
    assert_eq!(prefill.tokens_processed, 3);
    assert_eq!(prefill.logits, LogitsRef(0));

    let decode = backend.decode(&DecodeBatch {
        entries: vec![DecodeEntry {
            seq: SeqId(0),
            last_token: TokenId(3),
            position: 3,
            block_table: BlockTableRef(0),
            sampler: SamplerStateRef(0),
            grammar_mask: None,
            draft: None,
        }],
    });
    assert_eq!(decode.batch, 1);

    let report = backend.memory_report();
    assert_eq!(report.declared, budget.declared);
    assert!(report.within_budget());
    assert_eq!(backend.load(artifact.digest, budget).instance, 2);
}

#[test]
fn greedy_sampling_is_deterministic() {
    let mut backend = MockBackend::new();
    let a = backend.next_token(true);
    let b = backend.next_token(true);
    assert_eq!(a, b);
    assert_eq!(a, TokenId(42));
    // Non-greedy sampling walks a counter.
    assert_eq!(backend.next_token(false), TokenId(0));
    assert_eq!(backend.next_token(false), TokenId(1));
}

#[test]
fn actor_state_and_loop_decisions() {
    assert_eq!(ActorState::from_u8(0), ActorState::Running);
    assert_eq!(ActorState::from_u8(1), ActorState::Failed);
    assert_eq!(after_dispatch(false, false), LoopStep::Continue);
    assert_eq!(after_dispatch(false, true), LoopStep::Exit);
    assert_eq!(after_dispatch(true, false), LoopStep::Poison);
    assert_eq!(after_dispatch(true, true), LoopStep::Poison);
}

#[test]
fn stall_detector_trips_past_half_a_second() {
    assert!(!is_stall(Duration::from_millis(500)));
    assert!(is_stall(Duration::from_millis(501)));
    assert!(is_stall(Duration::from_secs(1)));
    assert!(!is_stall(Duration::from_secs(0)));
}

#[test]
fn actor_errors_carry_their_codes() {
    assert_eq!(internal_panic().code(), ErrorCode::InternalPanic);
    assert_eq!(actor_gone().code(), ErrorCode::InternalInvariant);
    let e = rejection_error(300);
    assert_eq!(e.code(), ErrorCode::KvPoolExhausted);
    assert_eq!(e.message, "KV pool cannot admit the request; max admissible is 300 tokens");
    assert!(matches!(e.context.get("max_admissible"), Some(ContextValue::Int(300))));
    assert!(e.remedy().is_some());
}

#[test]
fn durations_carry_whole_seconds_of_nanoseconds() {
    let d = Duration::new(1, 1_500_000_000);
    assert_eq!(d.as_secs(), 2);
    assert_eq!(d.subsec_nanos(), 500_000_000);
    assert_eq!(Duration::new(0, 7), Duration::new(0, 7));
    assert_eq!(Duration::from_millis(1500), Duration::new(1, 500_000_000));
    assert!(!is_stall(Duration::new(0, 500_000_000)));
    assert!(is_stall(Duration::new(0, 500_000_001)));
}

#[test]
fn stub_artifact_is_a_one_layer_mock() {
    let a = stub_artifact();
    assert_eq!(a.digest, Sha256([1u8; 32]));
    assert_eq!(a.manifest_path, "/dev/null");
    assert_eq!(a.arch.name, "mock");
    assert_eq!(a.arch.layers, 1);
    assert_eq!(a.quant.bits, 4);
    assert_eq!(a.weights.len(), 1);
    assert_eq!(a.weights[0].name, "model.safetensors");
    assert_eq!(a.tokenizer.name, "tokenizer.json");
    assert_eq!(a.advertised_ctx, 4096);
}
