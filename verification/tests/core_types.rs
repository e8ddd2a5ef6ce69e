use drakkar::artifact::ModelHandle;
use drakkar::error::ErrorCode;
use drakkar::exec::{BlockTableRef, DecodeBatch, DecodeEntry, DraftTokens, MaskRef, SamplerStateRef};
use drakkar::ids::{
    PrefixHash, PrefixHashChain, SchemaTag, SeqId, Sha256, TokenId, Ulid, render_schema_tag,
};
use drakkar::memory::{MemoryBreakdown, MemoryBudget, MemoryReport};
use drakkar::schema::{Gate, SchemaField, Surface, payload_major, schema_gate};
use drakkar::secret::{REDACTED, Secret};

#[test]
fn model_handle_is_constructible() {
    let h = ModelHandle::new(1, Sha256([0u8; 32]), MemoryBudget::new(1, 1, 1, 1, 0, 0));
    assert_eq!(h.instance, 1);
    assert_eq!(h.budget.declared, 4);
}

#[test]
fn decode_entry_holds_opaque_refs_and_optional_draft() {
    let entry = DecodeEntry {
        seq: SeqId(1),
        last_token: TokenId(42),
        position: 100,
        block_table: BlockTableRef(0xdead),
        sampler: SamplerStateRef(0xbeef),
        grammar_mask: Some(MaskRef(1)),
        draft: Some(DraftTokens { tokens: vec![TokenId(1), TokenId(2)] }),
    };
    let batch = DecodeBatch { entries: vec![entry.clone()] };
    assert_eq!(batch.entries[0], entry);
}

#[test]
fn sha256_renders_with_prefix_and_round_trips() {
    let mut bytes = [0u8; 32];
    for (i, b) in bytes.iter_mut().enumerate() {
        *b = i as u8;
    }
    let digest = Sha256(bytes);
    let rendered = digest.render();
    assert!(rendered.starts_with("sha256-"));
    assert_eq!(rendered.len(), "sha256-".len() + 64);
    assert_eq!(rendered.parse::<Sha256>().ok(), Some(digest));
}

#[test]
fn sha256_renders_lowercase_hex_exactly() {
    let mut bytes = [0u8; 32];
    bytes[0] = 0xab;
    bytes[31] = 0x0f;
    let d = Sha256(bytes);
    let hex = d.to_hex();
    assert_eq!(hex.len(), 64);
    assert!(hex.starts_with("ab00"));
    assert!(hex.ends_with("000f"));
    assert_eq!(d.render(), format!("sha256-{hex}"));
    // Uppercase hex is accepted on the way in and normalises on the way out.
    let upper = format!("sha256-{}", hex.to_uppercase());
    assert_eq!(Sha256::parse(&upper).ok(), Some(d));
}

#[test]
fn sha256_rejects_bad_input() {
    assert!("deadbeef".parse::<Sha256>().is_err());
    assert!("sha256-xyz".parse::<Sha256>().is_err());
    assert!("sha256-00".parse::<Sha256>().is_err());
    let bad = Sha256::parse("sha256-00").err().unwrap();
    assert_eq!(bad.0, "sha256-00");
}

#[test]
fn prefix_hash_renders_as_hex() {
    let h = PrefixHash([0x11u8; 32]);
    assert_eq!(h.to_hex(), "11".repeat(32));
    assert!(PrefixHashChain::default().0.is_empty());
}

#[test]
fn schema_tag_parses_name_and_major() {
    let tag = SchemaTag::new("drakkar.fit/1");
    assert_eq!(tag.name(), "drakkar.fit");
    assert_eq!(tag.major(), Some(1));
    assert_eq!(tag.as_str(), "drakkar.fit/1");
}

#[test]
fn schema_tag_without_major_has_none() {
    let tag = SchemaTag::new("drakkar.fit");
    assert_eq!(tag.major(), None);
    assert_eq!(tag.name(), "drakkar.fit");
    assert_eq!(SchemaTag::new("drakkar.fit/x").major(), None);
}

#[test]
fn ulid_round_trips_through_crockford() {
    for v in [0u128, 1, 0x0123_4567_89ab_cdef, u128::MAX >> 2] {
        let ulid = Ulid(v);
        let s = ulid.render();
        assert_eq!(s.len(), 26);
        assert_eq!(s.parse::<Ulid>().ok(), Some(ulid));
    }
}

#[test]
fn ulid_renders_known_values_and_rejects_bad_text() {
    assert_eq!(Ulid(0).render(), "00000000000000000000000000");
    assert_eq!(Ulid(31).render(), "0000000000000000000000000Z");
    assert_eq!(Ulid(u128::MAX).render(), "7ZZZZZZZZZZZZZZZZZZZZZZZZZ");
    assert!(Ulid::parse("0000000000000000000000000U").is_err()); // U is excluded
    // 26 symbols carry 130 bits: a first symbol above 7 does not fit.
    assert!(Ulid::parse("8ZZZZZZZZZZZZZZZZZZZZZZZZZ").is_err());
    assert!("80000000000000000000000000".parse::<Ulid>().is_err());
    assert_eq!(
        Ulid::parse("7ZZZZZZZZZZZZZZZZZZZZZZZZZ").ok(),
        Some(Ulid(u128::MAX))
    );
    assert_eq!(Ulid::parse("0000000000000000000000000z").ok(), Some(Ulid(31)));
    assert!(Ulid::parse("000").is_err()); // wrong length
}

#[test]
fn new_computes_declared_as_component_sum() {
    let b = MemoryBudget::new(10, 20, 3, 5, 0, 2);
    assert_eq!(b.declared, 40);
    assert!(b.validate().is_ok());
}

#[test]
fn try_from_parts_rejects_mismatched_declared() {
    // 10+20+3+5+0+2 = 40, not 99.
    let err = MemoryBudget::try_from_parts(99, 10, 20, 3, 5, 0, 2).unwrap_err();
    assert_eq!(err.declared, 99);
    assert_eq!(err.component_sum, 40);
    assert_eq!(err.message(), "memory budget declared 99 but components sum to 40");
}

#[test]
fn try_from_parts_accepts_consistent_declared() {
    let b = MemoryBudget::try_from_parts(40, 10, 20, 3, 5, 0, 2).unwrap();
    assert_eq!(b.declared, 40);
}

#[test]
fn an_edited_budget_fails_validation() {
    let mut b = MemoryBudget::new(10, 20, 3, 5, 0, 2);
    b.kv_pool = 21;
    let err = b.validate().unwrap_err();
    assert_eq!(err.declared, 40);
    assert_eq!(err.component_sum, 41);
    assert_eq!(b.component_sum(), 41);
}

#[test]
fn report_within_budget() {
    let report = MemoryReport {
        actual: 30,
        declared: 40,
        breakdown: MemoryBreakdown { weights: 20, kv: 6, activations: 3, allocator_cache: 1 },
        metal_recommended_working_set: 42,
        wired_limit_mb: 0,
    };
    assert!(report.within_budget());
    let over = MemoryReport { actual: 41, ..report };
    assert!(!over.within_budget());
}

#[test]
fn parse_and_render_are_inverse() {
    let parsed = SchemaTag::parse("drakkar.fit/1").unwrap();
    assert_eq!(parsed.name, "fit");
    assert_eq!(parsed.major, 1);
    assert_eq!(render_schema_tag("fit", 1), "drakkar.fit/1");
    assert_eq!(SchemaTag::parse(&render_schema_tag("manifest", 3)).unwrap().major, 3);
}

#[test]
fn parse_rejects_malformed_tags() {
    assert!(SchemaTag::parse("fit/1").is_none()); // missing drakkar. prefix
    assert!(SchemaTag::parse("drakkar.fit").is_none()); // missing major
    assert!(SchemaTag::parse("drakkar./1").is_none()); // empty name
    assert!(SchemaTag::parse("drakkar.fit/x").is_none()); // non-numeric major
}

#[test]
fn absent_schema_reads_as_major_1() {
    assert_eq!(payload_major(&SchemaField::Absent), None);
    let gate = schema_gate(&SchemaField::Absent, 1, Surface::UserOwned { file: "config.toml" });
    assert_eq!(gate.ok(), Some(Gate::Deserialize));
}

#[test]
fn within_major_deserializes() {
    let tag = SchemaField::Text("drakkar.fit/1".to_owned());
    assert_eq!(payload_major(&tag), Some(1));
    assert_eq!(schema_gate(&tag, 1, Surface::ReconstructibleStore).ok(), Some(Gate::Deserialize));
    // An older major is still read by a newer build.
    assert_eq!(schema_gate(&tag, 3, Surface::ReconstructibleStore).ok(), Some(Gate::Deserialize));
}

#[test]
fn too_new_major_on_user_file_is_config_invalid_value() {
    let tag = SchemaField::Text("drakkar.config/2".to_owned());
    let err = schema_gate(&tag, 1, Surface::UserOwned { file: "~/.config/drakkar/config.toml" })
        .unwrap_err();
    assert_eq!(err.code(), ErrorCode::ConfigInvalidValue);
    assert!(err.message.contains("config.toml"));
    assert!(err.message.contains("major 2"));
    assert!(err.message.contains("major 1"));
    assert_eq!(err.context.get("found_major").unwrap().to_display(), "2");
    assert_eq!(err.context.get("supported_major").unwrap().to_display(), "1");
    assert!(err.remedy().is_some());
}

#[test]
fn too_new_major_on_store_file_signals_regenerate() {
    let tag = SchemaField::Text("drakkar.manifest/2".to_owned());
    assert_eq!(
        schema_gate(&tag, 1, Surface::ReconstructibleStore).ok(),
        Some(Gate::Regenerate { found_major: 2, supported_major: 1 })
    );
}

#[test]
fn malformed_schema_tags_are_invalid_value_on_both_surfaces() {
    for field in [
        SchemaField::Text("fit/1".to_owned()),
        SchemaField::Other("7".to_owned()),
    ] {
        let user = schema_gate(&field, 1, Surface::UserOwned { file: "config.toml" }).unwrap_err();
        assert_eq!(user.code(), ErrorCode::ConfigInvalidValue);
        assert!(user.message.contains("config.toml"));
        let store = schema_gate(&field, 1, Surface::ReconstructibleStore).unwrap_err();
        assert_eq!(store.code(), ErrorCode::ConfigInvalidValue);
        assert!(store.message.contains("payload"));
    }
}

const TOKEN: &str = "hf_supersecrettoken_deadbeef";

#[test]
fn debug_and_display_redact() {
    let secret = Secret::new(TOKEN.to_owned());
    let shown = secret.redacted();
    assert_eq!(shown, REDACTED);
    assert!(!shown.contains("hf_"));
    assert!(!shown.contains(TOKEN));
}

#[test]
fn expose_returns_the_raw_value() {
    let secret = Secret::new(TOKEN.to_owned());
    assert_eq!(secret.expose(), TOKEN);
    assert_eq!(Secret::new(TOKEN.to_owned()).into_inner(), TOKEN);
}
