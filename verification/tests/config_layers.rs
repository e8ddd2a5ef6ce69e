use std::collections::BTreeMap;

use drakkar::config::effective::{EffectiveValue, Source, effective, render_value_line};
use drakkar::config::file::is_known_key;
use drakkar::config::resolve::{env_var_for, resolve, resolve_api_key, set_text, validate_key_value};
use drakkar::config::settings::parse_duration;
use drakkar::config::{Config, ImportHfCache, Telemetry, config_schema, parse_bool, to_toml};
use drakkar::error::{DkError, ErrorCode};
use drakkar::time::Duration;

const FIXTURE: &str = r#"
schema = "drakkar.config/1"
telemetry = "off"

[server]
host = "0.0.0.0"
port = 8080
api_key = "sk-secret"
hide_reasoning = true
responses_api = true

[models]
default = "qwen3-8b"

[storage]
path = "/data/drakkar"
import_hf_cache = "copy"

[kv_cache]
disk = true
bits = 8
disk_budget_gib = 64
ttl_min = 120

[runtime]
keep_alive = "45m"

[scheduler]
max_concurrency = 4
"#;

fn env(pairs: &[(&str, &str)]) -> BTreeMap<String, String> {
    pairs.iter().map(|(k, v)| ((*k).to_owned(), (*v).to_owned())).collect()
}

fn load(file: Option<&str>, e: &BTreeMap<String, String>, f: &BTreeMap<String, String>) -> Config {
    match resolve(file, e, f) {
        Ok(c) => c,
        Err(err) => panic!("unexpected error: {}", err.describe()),
    }
}

fn load_err(file: Option<&str>) -> DkError {
    match resolve(file, &BTreeMap::new(), &BTreeMap::new()) {
        Ok(_) => panic!("expected an error"),
        Err(e) => e,
    }
}

#[test]
fn config_defaults_are_the_normative_v01_values() {
    let cfg = load(None, &BTreeMap::new(), &BTreeMap::new());
    assert_eq!(cfg.server.host, "127.0.0.1");
    assert_eq!(cfg.server.port, 11711);
    assert_eq!(cfg.kv_cache.bits, 16);
    assert_eq!(cfg.scheduler.max_concurrency, 8);
    assert_eq!(cfg.telemetry, Telemetry::Off);
    assert!(cfg.server.api_key.expose().is_empty());
    assert_eq!(cfg.kv_cache.disk, None);
    assert_eq!(cfg.runtime.keep_alive, Duration::from_secs(30 * 60));
}

#[test]
fn config_load_populates_every_key_with_correct_types() {
    let cfg = load(Some(FIXTURE), &BTreeMap::new(), &BTreeMap::new());
    assert_eq!(cfg.server.host, "0.0.0.0");
    assert_eq!(cfg.server.port, 8080);
    assert_eq!(cfg.server.api_key.expose(), "sk-secret");
    assert!(cfg.server.hide_reasoning);
    assert!(cfg.server.responses_api);
    assert_eq!(cfg.models.default, "qwen3-8b");
    assert_eq!(cfg.storage.path, "/data/drakkar");
    assert_eq!(cfg.storage.import_hf_cache, ImportHfCache::Copy);
    assert_eq!(cfg.kv_cache.disk, Some(true));
    assert_eq!(cfg.kv_cache.bits, 8);
    assert_eq!(cfg.kv_cache.disk_budget_gib, 64);
    assert_eq!(cfg.kv_cache.ttl_min, 120);
    assert_eq!(cfg.runtime.keep_alive, Duration::from_secs(45 * 60));
    assert_eq!(cfg.scheduler.max_concurrency, 4);
}

#[test]
fn config_absent_keys_fall_back_to_defaults() {
    let partial = "[server]\nport = 9000\n";
    let cfg = load(Some(partial), &BTreeMap::new(), &BTreeMap::new());
    assert_eq!(cfg.server.port, 9000);
    assert_eq!(cfg.server.host, "127.0.0.1"); // default
    assert_eq!(cfg.scheduler.max_concurrency, 8); // default
}

#[test]
fn config_precedence_flag_over_env_over_file() {
    let file = "[server]\nport = 1111\n";
    let c0 = load(Some(file), &BTreeMap::new(), &BTreeMap::new());
    assert_eq!(c0.server.port, 1111);
    let e = env(&[("DRAKKAR_SERVER_PORT", "2222")]);
    let c1 = load(Some(file), &e, &BTreeMap::new());
    assert_eq!(c1.server.port, 2222);
    let mut flags = BTreeMap::new();
    flags.insert("server.port".to_owned(), "3333".to_owned());
    let c2 = load(Some(file), &e, &flags);
    assert_eq!(c2.server.port, 3333);
}

#[test]
fn config_env_mapping_is_mechanical_for_underscored_sections() {
    let e = env(&[("DRAKKAR_KV_CACHE_BITS", "4")]);
    let cfg = load(None, &e, &BTreeMap::new());
    assert_eq!(cfg.kv_cache.bits, 4);
    assert_eq!(env_var_for("kv_cache.bits"), "DRAKKAR_KV_CACHE_BITS");
    assert_eq!(env_var_for("telemetry"), "DRAKKAR_TELEMETRY");
}

#[test]
fn config_unknown_key_is_invalid_key() {
    let err = load_err(Some("[server]\nporta = 8080\n"));
    assert_eq!(err.code(), ErrorCode::ConfigInvalidKey);
    assert!(err.message.contains("server.porta"));
}

#[test]
fn config_telemetry_on_is_invalid_value() {
    let err = load_err(Some("telemetry = \"on\"\n"));
    assert_eq!(err.code(), ErrorCode::ConfigInvalidValue);
}

#[test]
fn config_out_of_range_port_is_invalid_value() {
    assert_eq!(load_err(Some("[server]\nport = 99999\n")).code(), ErrorCode::ConfigInvalidValue);
    assert_eq!(load_err(Some("[server]\nport = 0\n")).code(), ErrorCode::ConfigInvalidValue);
}

#[test]
fn config_bad_bits_and_import_policy_are_invalid_value() {
    for bad in ["[kv_cache]\nbits = 3\n", "[storage]\nimport_hf_cache = \"nope\"\n"] {
        assert_eq!(
            load_err(Some(bad)).code(),
            ErrorCode::ConfigInvalidValue,
            "expected invalid_value for {bad:?}"
        );
    }
}

#[test]
fn config_newer_schema_major_is_rejected() {
    let future = "schema = \"drakkar.config/2\"\n";
    assert_eq!(load_err(Some(future)).code(), ErrorCode::ConfigInvalidValue);
}

#[test]
fn config_malformed_toml_is_invalid_value() {
    assert_eq!(load_err(Some("[server\nport = 1\n")).code(), ErrorCode::ConfigInvalidValue);
}

#[test]
fn config_duration_suffixes_parse() {
    assert_eq!(parse_duration("k", "30m").ok(), Some(Duration::from_secs(1800)));
    assert_eq!(parse_duration("k", "90s").ok(), Some(Duration::from_secs(90)));
    assert_eq!(parse_duration("k", "2h").ok(), Some(Duration::from_secs(7200)));
    assert_eq!(parse_duration("k", "500ms").ok(), Some(Duration::from_millis(500)));
    assert_eq!(parse_duration("k", "later").err().unwrap().code(), ErrorCode::ConfigInvalidValue);
    assert!(parse_duration("k", "30").is_err()); // no suffix
}

#[test]
fn config_to_toml_roundtrips_including_api_key() {
    let cfg = load(Some(FIXTURE), &BTreeMap::new(), &BTreeMap::new());
    let text = to_toml(&cfg);
    let back = load(Some(&text), &BTreeMap::new(), &BTreeMap::new());
    assert_eq!(back.server.api_key.expose(), "sk-secret");
    assert_eq!(back.server.port, 8080);
    assert_eq!(back.kv_cache.disk, Some(true));
    assert_eq!(back.storage.import_hf_cache, ImportHfCache::Copy);
    assert_eq!(back.runtime.keep_alive, cfg.runtime.keep_alive);
}

#[test]
fn config_to_toml_of_defaults_reloads_as_defaults() {
    let text = to_toml(&Config::default());
    assert!(text.starts_with("schema = \"drakkar.config/1\""));
    let back = load(Some(&text), &BTreeMap::new(), &BTreeMap::new());
    assert_eq!(back.server.port, 11711);
    assert_eq!(back.kv_cache.disk, None);
    assert_eq!(back.runtime.keep_alive, Duration::from_secs(1800));
}

#[test]
fn config_api_key_precedence_flag_over_env_over_file() {
    let cfg = load(Some(FIXTURE), &BTreeMap::new(), &BTreeMap::new());
    assert_eq!(cfg.server.api_key.expose(), "sk-secret");
    let k0 = resolve_api_key(None, &BTreeMap::new(), &cfg);
    assert_eq!(k0.expose(), "sk-secret");
    let e = env(&[("DRAKKAR_API_KEY", "env-key")]);
    let k1 = resolve_api_key(None, &e, &cfg);
    assert_eq!(k1.expose(), "env-key");
    let k2 = resolve_api_key(Some("flag-key"), &e, &cfg);
    assert_eq!(k2.expose(), "flag-key");
    let empty = Config::default();
    assert!(resolve_api_key(None, &BTreeMap::new(), &empty).expose().is_empty());
}

#[test]
fn config_api_key_never_serializes_in_plaintext_via_debug() {
    let cfg = load(Some(FIXTURE), &BTreeMap::new(), &BTreeMap::new());
    let shown = cfg.server.api_key.redacted();
    assert!(!shown.contains("sk-secret"), "Secret leaked the key: {shown}");
}

#[test]
fn get_reports_value_and_source_layer() {
    let none = BTreeMap::new();
    let d = effective("server.port", None, &none, &none).ok().unwrap();
    assert_eq!(d, (EffectiveValue::Int(11711), Source::Default));
    assert_eq!(d.1.as_str(), "default");
    let f = effective("server.port", Some("[server]\nport = 8080\n"), &none, &none).ok().unwrap();
    assert_eq!(f, (EffectiveValue::Int(8080), Source::File));
    let e = env(&[("DRAKKAR_SERVER_PORT", "9090")]);
    let v = effective("server.port", Some("[server]\nport = 8080\n"), &e, &none).ok().unwrap();
    assert_eq!(v, (EffectiveValue::Int(9090), Source::Env));
    assert_eq!(v.1.as_str(), "env");
}

#[test]
fn get_redacts_the_api_key() {
    let none = BTreeMap::new();
    let out = effective("server.api_key", Some("[server]\napi_key = \"sk-secret\"\n"), &none, &none)
        .ok()
        .unwrap();
    assert_eq!(out, (EffectiveValue::Str("[redacted]".to_owned()), Source::File));
    assert!(!render_value_line("server.api_key", &out.0, out.1, false).contains("sk-secret"));
}

#[test]
fn get_renders_one_human_line() {
    assert_eq!(
        render_value_line("server.port", &EffectiveValue::Int(8080), Source::File, false),
        "server.port = 8080 (file)"
    );
    assert_eq!(
        render_value_line("kv_cache.disk", &EffectiveValue::Unset, Source::Default, false),
        "kv_cache.disk = (unset) (default)"
    );
    assert_eq!(
        render_value_line("server.hide_reasoning", &EffectiveValue::Bool(true), Source::Env, true),
        "\x1b[1mserver.hide_reasoning\x1b[0m = true \x1b[2m(env)\x1b[0m"
    );
}

#[test]
fn get_unknown_key_is_a_usage_error() {
    let none = BTreeMap::new();
    let err = effective("server.nonsense", None, &none, &none).err().unwrap();
    assert_eq!(err.code(), ErrorCode::ConfigInvalidKey);
    assert_eq!(err.code().exit_code(), 2);
}

#[test]
fn set_validation_accepts_good_values_and_names_bad_ones() {
    assert!(validate_key_value("server.port", "12321").is_ok());
    assert_eq!(
        validate_key_value("server.port", "not-a-port").err().unwrap().code(),
        ErrorCode::ConfigInvalidValue
    );
    assert_eq!(
        validate_key_value("server.nonsense", "x").err().unwrap().code(),
        ErrorCode::ConfigInvalidKey
    );
}

#[test]
fn known_keys_and_booleans() {
    assert!(is_known_key("server.port"));
    assert!(is_known_key("schema"));
    assert!(!is_known_key("server.porta"));
    assert_eq!(parse_bool("kv_cache.disk", "true").ok(), Some(true));
    assert_eq!(parse_bool("kv_cache.disk", "false").ok(), Some(false));
    let bad = parse_bool("kv_cache.disk", "yes").err().unwrap();
    assert_eq!(bad.code(), ErrorCode::ConfigInvalidValue);
    assert!(bad.message.contains("kv_cache.disk"));
    assert_eq!(config_schema().as_str(), "drakkar.config/1");
}

#[test]
fn config_set_writes_atomically_and_roundtrips() {
    let first = set_text(None, "server.port", "4242").unwrap();
    let cfg = load(Some(&first), &BTreeMap::new(), &BTreeMap::new());
    assert_eq!(cfg.server.port, 4242);
    // A second set preserves the first and applies the second.
    let second = set_text(Some(&first), "scheduler.max_concurrency", "2").unwrap();
    let cfg2 = load(Some(&second), &BTreeMap::new(), &BTreeMap::new());
    assert_eq!(cfg2.server.port, 4242);
    assert_eq!(cfg2.scheduler.max_concurrency, 2);
    // The API key is written out so the file keeps it.
    let keyed = set_text(Some(&second), "server.api_key", "sk-live-123").unwrap();
    let cfg3 = load(Some(&keyed), &BTreeMap::new(), &BTreeMap::new());
    assert_eq!(cfg3.server.api_key.expose(), "sk-live-123");
    assert_eq!(cfg3.server.port, 4242);
}

#[test]
fn config_set_revalidates_before_writing() {
    let existing = "[server]\nport = 7000\n";
    let bad_value = set_text(Some(existing), "server.port", "not-a-port").unwrap_err();
    assert_eq!(bad_value.code(), ErrorCode::ConfigInvalidValue);
    let bad_key = set_text(Some(existing), "server.nonsense", "x").unwrap_err();
    assert_eq!(bad_key.code(), ErrorCode::ConfigInvalidKey);
    // The schema tag is not a settable key.
    assert_eq!(
        set_text(None, "schema", "drakkar.config/1").unwrap_err().code(),
        ErrorCode::ConfigInvalidKey
    );
    // A broken existing file is reported rather than overwritten.
    assert_eq!(
        set_text(Some("[server\n"), "server.port", "1").unwrap_err().code(),
        ErrorCode::ConfigInvalidValue
    );
}
