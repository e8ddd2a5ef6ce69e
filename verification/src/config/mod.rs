//! `drakkar.config/1`: the one user-edited configuration file. This module
//! holds the schema, the four-level precedence resolver (flags > `DRAKKAR_*`
//! env > file > defaults), the mechanical env mapping (`server.port` ⇔
//! `DRAKKAR_SERVER_PORT`), the type/range validation returning named errors,
//! and the serializer back to `config.toml` text.



pub mod effective;
pub mod file;
pub mod precedence;
pub mod resolve;
pub mod round_trip;
pub mod settings;

use vstd::prelude::*;

use crate::error::{DkError, DkErrorView, ErrorCode, ErrorContext, error_new, error_with_context};
use crate::error::context::{CtxVal, ctx_insert};
use crate::ids::SchemaTag;
use crate::secret::Secret;
use crate::text::{chars_of, nat_decimal, push_str, push_u64, str_eq};
use crate::time::Duration;

verus! {

/// The schema tag config files carry (optional; absence reads as major 1).
pub fn config_schema() -> (r: SchemaTag)
    ensures
        r.0 == "drakkar.config/1",
{
    SchemaTag("drakkar.config/1")
}

/// The `[storage].import_hf_cache` policy.
#[derive(Clone, Copy, PartialEq, Eq, Debug, Structural)]
pub enum ImportHfCache {
    /// Hard-link / clonefile from the HF cache (default).
    Clone,
    /// Copy from the HF cache.
    Copy,
    /// Do not import from the HF cache.
    Off,
}

/// The `telemetry` setting. The only accepted value is `off`.
#[derive(Clone, Copy, PartialEq, Eq, Debug, Structural)]
pub enum Telemetry {
    /// No telemetry.
    Off,
}

/// The `[server]` section.
#[derive(Clone)]
pub struct ServerConfig {
    /// Bind host (non-loopback requires an api key).
    pub host: String,
    /// Bind port.
    pub port: u16,
    /// API key (redacted; empty = unset).
    pub api_key: Secret<String>,
    /// Server-level reasoning-hiding override.
    pub hide_reasoning: bool,
    /// Enable `/v1/responses`.
    pub responses_api: bool,
}

/// The `[models]` section.
#[derive(Clone, Debug)]
pub struct ModelsConfig {
    /// The reference used when an API `model` is `"default"`.
    pub default: String,
}

/// The `[storage]` section.
#[derive(Clone, Debug)]
pub struct StorageConfig {
    /// The store root.
    pub path: String,
    /// The HF-cache import policy.
    pub import_hf_cache: ImportHfCache,
}

/// The `[kv_cache]` section.
#[derive(Clone, Copy, Debug)]
pub struct KvCacheConfig {
    /// Disk tier enable; `None` = the mode default (on for `serve`, off for
    /// one-shot `run`).
    pub disk: Option<bool>,
    /// KV precision in bits (16 | 8 | 4).
    pub bits: u8,
    /// Disk-tier budget in GiB.
    pub disk_budget_gib: u32,
    /// RAM cached-block TTL in minutes.
    pub ttl_min: u32,
}

/// The `[runtime]` section.
#[derive(Clone, Copy, Debug)]
pub struct RuntimeConfig {
    /// Idle-unload keep-alive for `serve`.
    pub keep_alive: Duration,
}

/// The `[scheduler]` section.
#[derive(Clone, Copy, Debug)]
pub struct SchedulerConfig {
    /// Maximum concurrent sequences.
    pub max_concurrency: u32,
}

/// The resolved configuration.
#[derive(Clone)]
pub struct Config {
    /// `[server]`.
    pub server: ServerConfig,
    /// `[models]`.
    pub models: ModelsConfig,
    /// `[storage]`.
    pub storage: StorageConfig,
    /// `[kv_cache]`.
    pub kv_cache: KvCacheConfig,
    /// `[runtime]`.
    pub runtime: RuntimeConfig,
    /// `[scheduler]`.
    pub scheduler: SchedulerConfig,
    /// `telemetry`.
    pub telemetry: Telemetry,
}

/// The mathematical value of a [`Config`]: every setting, strings as
/// character sequences and the keep-alive as (seconds, nanoseconds).
pub struct ConfigView {
    /// `server.host`.
    pub host: Seq<char>,
    /// `server.port`.
    pub port: u16,
    /// `server.api_key` (the raw value).
    pub api_key: Seq<char>,
    /// `server.hide_reasoning`.
    pub hide_reasoning: bool,
    /// `server.responses_api`.
    pub responses_api: bool,
    /// `models.default`.
    pub default_model: Seq<char>,
    /// `storage.path`.
    pub path: Seq<char>,
    /// `storage.import_hf_cache`.
    pub import_hf_cache: ImportHfCache,
    /// `kv_cache.disk`.
    pub disk: Option<bool>,
    /// `kv_cache.bits`.
    pub bits: u8,
    /// `kv_cache.disk_budget_gib`.
    pub disk_budget_gib: u32,
    /// `kv_cache.ttl_min`.
    pub ttl_min: u32,
    /// `runtime.keep_alive`.
    pub keep_alive: (u64, u32),
    /// `scheduler.max_concurrency`.
    pub max_concurrency: u32,
    /// `telemetry`.
    pub telemetry: Telemetry,
}

impl View for Config {
    type V = ConfigView;

    open spec fn view(&self) -> ConfigView {
        ConfigView {
            host: self.server.host@,
            port: self.server.port,
            api_key: self.server.api_key.raw()@,
            hide_reasoning: self.server.hide_reasoning,
            responses_api: self.server.responses_api,
            default_model: self.models.default@,
            path: self.storage.path@,
            import_hf_cache: self.storage.import_hf_cache,
            disk: self.kv_cache.disk,
            bits: self.kv_cache.bits,
            disk_budget_gib: self.kv_cache.disk_budget_gib,
            ttl_min: self.kv_cache.ttl_min,
            keep_alive: self.runtime.keep_alive@,
            max_concurrency: self.scheduler.max_concurrency,
            telemetry: self.telemetry,
        }
    }
}

/// The built-in defaults.
pub open spec fn default_view() -> ConfigView {
    ConfigView {
        host: "127.0.0.1"@,
        port: 11711,
        api_key: Seq::empty(),
        hide_reasoning: false,
        responses_api: false,
        default_model: Seq::empty(),
        path: "~/.drakkar"@,
        import_hf_cache: ImportHfCache::Clone,
        disk: None,
        bits: 16,
        disk_budget_gib: 8,
        ttl_min: 30,
        keep_alive: (1800u64, 0u32),
        max_concurrency: 8,
        telemetry: Telemetry::Off,
    }
}

impl Default for Config {
    /// The built-in defaults: `127.0.0.1:11711`, no API key, 16-bit KV, a
    /// 30-minute keep-alive, 8 concurrent sequences, telemetry off.
    fn default() -> (r: Config)
        ensures
            r@ == default_view(),
    {
        Config {
            server: ServerConfig {
                host: "127.0.0.1".to_owned(),
                port: 11711,
                api_key: Secret::new(String::new()),
                hide_reasoning: false,
                responses_api: false,
            },
            models: ModelsConfig { default: String::new() },
            storage: StorageConfig {
                path: "~/.drakkar".to_owned(),
                import_hf_cache: ImportHfCache::Clone,
            },
            kv_cache: KvCacheConfig { disk: None, bits: 16, disk_budget_gib: 8, ttl_min: 30 },
            runtime: RuntimeConfig { keep_alive: Duration::from_secs(30 * 60) },
            scheduler: SchedulerConfig { max_concurrency: 8 },
            telemetry: Telemetry::Off,
        }
    }
}

/// The error for an unknown config key: `config.invalid_key`, message
/// `unknown config key '<key>'`, context `key`.
pub open spec fn invalid_key_view(key: Seq<char>) -> DkErrorView {
    error_with_context(
        error_new(ErrorCode::ConfigInvalidKey, "unknown config key '"@ + key + "'"@),
        ctx_insert(Seq::empty(), "key"@, CtxVal::Str(key)),
    )
}

/// The error for a mistyped or out-of-range value: `config.invalid_value`,
/// message `'<key>' expects <expected>; got '<value>'`, context `key`,
/// `expected`, `value`.
pub open spec fn invalid_value_view(
    key: Seq<char>,
    value: Seq<char>,
    expected: Seq<char>,
) -> DkErrorView {
    error_with_context(
        error_new(
            ErrorCode::ConfigInvalidValue,
            "'"@ + key + "' expects "@ + expected + "; got '"@ + value + "'"@,
        ),
        ctx_insert(
            ctx_insert(
                ctx_insert(Seq::empty(), "key"@, CtxVal::Str(key)),
                "expected"@,
                CtxVal::Str(expected),
            ),
            "value"@,
            CtxVal::Str(value),
        ),
    )
}

/// Builds the `config.invalid_key` error for `key`.
pub fn invalid_key(key: &str) -> (r: DkError)
    ensures
        r@ == invalid_key_view(key@),
{
    let mut m = String::new();
    push_str(&mut m, "unknown config key '");
    push_str(&mut m, key);
    push_str(&mut m, "'");
    assert(m@ =~= "unknown config key '"@ + key@ + "'"@);
    DkError::new(ErrorCode::ConfigInvalidKey, m).with_context(ErrorContext::new().with_str("key", key))
}

/// Builds the `config.invalid_value` error for `key` = `value`.
pub fn invalid_value(key: &str, value: &str, expected: &str) -> (r: DkError)
    ensures
        r@ == invalid_value_view(key@, value@, expected@),
{
    let mut m = String::new();
    push_str(&mut m, "'");
    push_str(&mut m, key);
    push_str(&mut m, "' expects ");
    push_str(&mut m, expected);
    push_str(&mut m, "; got '");
    push_str(&mut m, value);
    push_str(&mut m, "'");
    assert(m@ =~= "'"@ + key@ + "' expects "@ + expected@ + "; got '"@ + value@ + "'"@);
    DkError::new(ErrorCode::ConfigInvalidValue, m).with_context(
        ErrorContext::new().with_str("key", key).with_str("expected", expected).with_str(
            "value",
            value,
        ),
    )
}

/// What `parse_bool` accepts: exactly `true` or `false`.
pub open spec fn bool_of(v: Seq<char>) -> Option<bool> {
    if v == "true"@ {
        Some(true)
    } else if v == "false"@ {
        Some(false)
    } else {
        None
    }
}

/// Parses `true` / `false`; anything else is `config.invalid_value` for `key`.
pub fn parse_bool(key: &str, v: &str) -> (r: Result<bool, DkError>)
    ensures
        r matches Ok(b) ==> bool_of(v@) == Some(b),
        r matches Err(e) ==> bool_of(v@) is None && e@ == invalid_value_view(
            key@,
            v@,
            "true | false"@,
        ),
{
    if str_eq(v, "true") {
        Ok(true)
    } else if str_eq(v, "false") {
        Ok(false)
    } else {
        Err(invalid_value(key, v, "true | false"))
    }
}

} // verus!

verus! {

/// `true` / `false`.
pub open spec fn bool_text(b: bool) -> Seq<char> {
    if b {
        "true"@
    } else {
        "false"@
    }
}

/// The file spelling of an import policy.
pub open spec fn import_text(p: ImportHfCache) -> Seq<char> {
    match p {
        ImportHfCache::Clone => "clone"@,
        ImportHfCache::Copy => "copy"@,
        ImportHfCache::Off => "off"@,
    }
}

/// The top-level keys, which precede every table header.
pub open spec fn toml_head() -> Seq<char> {
    "schema = \""@ + "drakkar.config/1"@ + "\"\n"@ + "telemetry = \"off\"\n\n"@
}

/// The `[server]` table.
pub open spec fn toml_server(c: ConfigView) -> Seq<char> {
    "[server]\n"@ + "host = \""@ + c.host + "\"\n"@ + "port = "@ + nat_decimal(c.port as nat)
        + "\n"@ + "api_key = \""@ + c.api_key + "\"\n"@ + "hide_reasoning = "@ + bool_text(
        c.hide_reasoning,
    ) + "\n"@ + "responses_api = "@ + bool_text(c.responses_api) + "\n\n"@
}

/// The `[models]` and `[storage]` tables.
pub open spec fn toml_models_storage(c: ConfigView) -> Seq<char> {
    "[models]\n"@ + "default = \""@ + c.default_model + "\"\n\n"@ + "[storage]\n"@ + "path = \""@
        + c.path + "\"\n"@ + "import_hf_cache = \""@ + import_text(c.import_hf_cache) + "\"\n\n"@
}

/// The `[kv_cache]` table; `disk` only when it is set.
pub open spec fn toml_kv(c: ConfigView) -> Seq<char> {
    "[kv_cache]\n"@ + match c.disk {
        Some(d) => "disk = "@ + bool_text(d) + "\n"@,
        None => Seq::empty(),
    } + "bits = "@ + nat_decimal(c.bits as nat) + "\n"@ + "disk_budget_gib = "@ + nat_decimal(
        c.disk_budget_gib as nat,
    ) + "\n"@ + "ttl_min = "@ + nat_decimal(c.ttl_min as nat) + "\n\n"@
}

/// The `[runtime]` and `[scheduler]` tables; the keep-alive in whole
/// seconds.
pub open spec fn toml_tail(c: ConfigView) -> Seq<char> {
    "[runtime]\n"@ + "keep_alive = \""@ + nat_decimal(c.keep_alive.0 as nat) + "s\"\n\n"@
        + "[scheduler]\n"@ + "max_concurrency = "@ + nat_decimal(c.max_concurrency as nat)
        + "\n"@
}

/// The `config.toml` text of a configuration (values written verbatim, the
/// API key included).
pub open spec fn toml_text(c: ConfigView) -> Seq<char> {
    toml_head() + toml_server(c) + toml_models_storage(c) + toml_kv(c) + toml_tail(c)
}

fn push_bool(out: &mut String, b: bool)
    ensures
        final(out)@ == old(out)@ + bool_text(b),
{
    if b {
        push_str(out, "true");
    } else {
        push_str(out, "false");
    }
}

fn push_server(out: &mut String, cfg: &Config)
    ensures
        final(out)@ == old(out)@ + toml_server(cfg@),
{
    push_str(out, "[server]\n");
    push_str(out, "host = \"");
    push_str(out, cfg.server.host.as_str());
    push_str(out, "\"\n");
    push_str(out, "port = ");
    push_u64(out, cfg.server.port as u64);
    push_str(out, "\n");
    push_str(out, "api_key = \"");
    push_str(out, cfg.server.api_key.expose().as_str());
    push_str(out, "\"\n");
    push_str(out, "hide_reasoning = ");
    push_bool(out, cfg.server.hide_reasoning);
    push_str(out, "\n");
    push_str(out, "responses_api = ");
    push_bool(out, cfg.server.responses_api);
    push_str(out, "\n\n");
    assert(out@ =~= old(out)@ + toml_server(cfg@));
}

fn push_models_storage(out: &mut String, cfg: &Config)
    ensures
        final(out)@ == old(out)@ + toml_models_storage(cfg@),
{
    push_str(out, "[models]\n");
    push_str(out, "default = \"");
    push_str(out, cfg.models.default.as_str());
    push_str(out, "\"\n\n");
    push_str(out, "[storage]\n");
    push_str(out, "path = \"");
    push_str(out, cfg.storage.path.as_str());
    push_str(out, "\"\n");
    push_str(out, "import_hf_cache = \"");
    match cfg.storage.import_hf_cache {
        ImportHfCache::Clone => push_str(out, "clone"),
        ImportHfCache::Copy => push_str(out, "copy"),
        ImportHfCache::Off => push_str(out, "off"),
    }
    push_str(out, "\"\n\n");
    assert(out@ =~= old(out)@ + toml_models_storage(cfg@));
}

fn push_kv(out: &mut String, cfg: &Config)
    ensures
        final(out)@ == old(out)@ + toml_kv(cfg@),
{
    push_str(out, "[kv_cache]\n");
    let ghost after_header = out@;
    match cfg.kv_cache.disk {
        Some(d) => {
            push_str(out, "disk = ");
            push_bool(out, d);
            push_str(out, "\n");
        },
        None => {},
    }
    assert(out@ =~= after_header + match cfg.kv_cache.disk {
        Some(d) => "disk = "@ + bool_text(d) + "\n"@,
        None => Seq::<char>::empty(),
    });
    push_str(out, "bits = ");
    push_u64(out, cfg.kv_cache.bits as u64);
    push_str(out, "\n");
    push_str(out, "disk_budget_gib = ");
    push_u64(out, cfg.kv_cache.disk_budget_gib as u64);
    push_str(out, "\n");
    push_str(out, "ttl_min = ");
    push_u64(out, cfg.kv_cache.ttl_min as u64);
    push_str(out, "\n\n");
    assert(out@ =~= old(out)@ + toml_kv(cfg@));
}

fn push_tail(out: &mut String, cfg: &Config)
    ensures
        final(out)@ == old(out)@ + toml_tail(cfg@),
{
    push_str(out, "[runtime]\n");
    push_str(out, "keep_alive = \"");
    push_u64(out, cfg.runtime.keep_alive.as_secs());
    push_str(out, "s\"\n\n");
    push_str(out, "[scheduler]\n");
    push_str(out, "max_concurrency = ");
    push_u64(out, cfg.scheduler.max_concurrency as u64);
    push_str(out, "\n");
    assert(out@ =~= old(out)@ + toml_tail(cfg@));
}

/// Serializes a configuration back to `config.toml` text. The API key is
/// written in the clear: this text goes only to the user-owned file.
pub fn to_toml(cfg: &Config) -> (r: String)
    ensures
        r@ == toml_text(cfg@),
{
    let mut out = String::new();
    push_str(&mut out, "schema = \"");
    push_str(&mut out, config_schema().0);
    push_str(&mut out, "\"\n");
    push_str(&mut out, "telemetry = \"off\"\n\n");
    assert(out@ =~= toml_head());
    push_server(&mut out, cfg);
    push_models_storage(&mut out, cfg);
    push_kv(&mut out, cfg);
    push_tail(&mut out, cfg);
    assert(out@ =~= toml_text(cfg@));
    out
}

} // verus!
