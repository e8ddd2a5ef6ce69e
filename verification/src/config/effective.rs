//! The effective value of one key and the precedence layer it came from,
//! the core of `config get`.

use std::collections::BTreeMap;

use vstd::prelude::*;

use super::file::{FileMap, alist_get, file_map_spec, load_file_map, toml_document};
use super::resolve::{
    SourcesView, config_result, env_var, env_var_for, resolve_layers, resolve_sources, source_get,
    str_map_view,
};
use super::settings::{Setting, setting_key};
use super::{Config, ConfigView, ImportHfCache, import_text, invalid_key, invalid_key_view};
use crate::error::{DkError, DkErrorView};
use crate::text::{nat_decimal, push_str, push_u64, str_eq};

verus! {

/// The layer a value came from.
#[derive(Clone, Copy, PartialEq, Eq, Debug, Structural)]
pub enum Source {
    /// The built-in default.
    Default,
    /// The config file.
    File,
    /// A `DRAKKAR_*` environment variable.
    Env,
    /// A command-line flag.
    Flag,
}

/// The wire name of a layer.
pub open spec fn source_text(s: Source) -> Seq<char> {
    match s {
        Source::Default => "default"@,
        Source::File => "file"@,
        Source::Env => "env"@,
        Source::Flag => "flag"@,
    }
}

impl Source {
    /// The layer's name: `default`, `file`, `env` or `flag`.
    pub fn as_str(self) -> (r: &'static str)
        ensures
            r@ == source_text(self),
    {
        match self {
            Source::Default => "default",
            Source::File => "file",
            Source::Env => "env",
            Source::Flag => "flag",
        }
    }
}

/// A setting's effective value as reported: a string, a number, a boolean,
/// or unset.
#[derive(Clone, PartialEq, Eq, Debug)]
pub enum EffectiveValue {
    /// A string value.
    Str(String),
    /// A number.
    Int(u64),
    /// A boolean.
    Bool(bool),
    /// No value (an optional setting left to its mode default).
    Unset,
}

/// The mathematical value of an [`EffectiveValue`].
pub enum ValueView {
    /// A string value.
    Str(Seq<char>),
    /// A number.
    Int(u64),
    /// A boolean.
    Bool(bool),
    /// No value.
    Unset,
}

/// The view of a value.
pub open spec fn value_view(v: EffectiveValue) -> ValueView {
    match v {
        EffectiveValue::Str(s) => ValueView::Str(s@),
        EffectiveValue::Int(n) => ValueView::Int(n),
        EffectiveValue::Bool(b) => ValueView::Bool(b),
        EffectiveValue::Unset => ValueView::Unset,
    }
}

/// The setting a dotted key names, if it is settable.
pub open spec fn setting_of(key: Seq<char>) -> Option<Setting> {
    if key == setting_key(Setting::Host) {
        Some(Setting::Host)
    } else if key == setting_key(Setting::Port) {
        Some(Setting::Port)
    } else if key == setting_key(Setting::ApiKey) {
        Some(Setting::ApiKey)
    } else if key == setting_key(Setting::HideReasoning) {
        Some(Setting::HideReasoning)
    } else if key == setting_key(Setting::ResponsesApi) {
        Some(Setting::ResponsesApi)
    } else if key == setting_key(Setting::ModelsDefault) {
        Some(Setting::ModelsDefault)
    } else if key == setting_key(Setting::StoragePath) {
        Some(Setting::StoragePath)
    } else if key == setting_key(Setting::ImportHfCache) {
        Some(Setting::ImportHfCache)
    } else if key == setting_key(Setting::KvDisk) {
        Some(Setting::KvDisk)
    } else if key == setting_key(Setting::KvBits) {
        Some(Setting::KvBits)
    } else if key == setting_key(Setting::KvDiskBudget) {
        Some(Setting::KvDiskBudget)
    } else if key == setting_key(Setting::KvTtl) {
        Some(Setting::KvTtl)
    } else if key == setting_key(Setting::KeepAlive) {
        Some(Setting::KeepAlive)
    } else if key == setting_key(Setting::MaxConcurrency) {
        Some(Setting::MaxConcurrency)
    } else if key == setting_key(Setting::Telemetry) {
        Some(Setting::Telemetry)
    } else {
        None
    }
}

/// The setting a dotted key names, if it is settable.
pub fn setting_for(key: &str) -> (r: Option<Setting>)
    ensures
        r == setting_of(key@),
{
    if str_eq(key, Setting::Host.key()) {
        Some(Setting::Host)
    } else if str_eq(key, Setting::Port.key()) {
        Some(Setting::Port)
    } else if str_eq(key, Setting::ApiKey.key()) {
        Some(Setting::ApiKey)
    } else if str_eq(key, Setting::HideReasoning.key()) {
        Some(Setting::HideReasoning)
    } else if str_eq(key, Setting::ResponsesApi.key()) {
        Some(Setting::ResponsesApi)
    } else if str_eq(key, Setting::ModelsDefault.key()) {
        Some(Setting::ModelsDefault)
    } else if str_eq(key, Setting::StoragePath.key()) {
        Some(Setting::StoragePath)
    } else if str_eq(key, Setting::ImportHfCache.key()) {
        Some(Setting::ImportHfCache)
    } else if str_eq(key, Setting::KvDisk.key()) {
        Some(Setting::KvDisk)
    } else if str_eq(key, Setting::KvBits.key()) {
        Some(Setting::KvBits)
    } else if str_eq(key, Setting::KvDiskBudget.key()) {
        Some(Setting::KvDiskBudget)
    } else if str_eq(key, Setting::KvTtl.key()) {
        Some(Setting::KvTtl)
    } else if str_eq(key, Setting::KeepAlive.key()) {
        Some(Setting::KeepAlive)
    } else if str_eq(key, Setting::MaxConcurrency.key()) {
        Some(Setting::MaxConcurrency)
    } else if str_eq(key, Setting::Telemetry.key()) {
        Some(Setting::Telemetry)
    } else {
        None
    }
}

/// The reported value of a setting in a resolved configuration: the API key
/// is always `[redacted]`, the keep-alive is whole seconds with an `s`.
pub open spec fn value_spec(c: ConfigView, s: Setting) -> ValueView {
    match s {
        Setting::Host => ValueView::Str(c.host),
        Setting::Port => ValueView::Int(c.port as u64),
        Setting::ApiKey => ValueView::Str("[redacted]"@),
        Setting::HideReasoning => ValueView::Bool(c.hide_reasoning),
        Setting::ResponsesApi => ValueView::Bool(c.responses_api),
        Setting::ModelsDefault => ValueView::Str(c.default_model),
        Setting::StoragePath => ValueView::Str(c.path),
        Setting::ImportHfCache => ValueView::Str(import_text(c.import_hf_cache)),
        Setting::KvDisk => match c.disk {
            Some(b) => ValueView::Bool(b),
            None => ValueView::Unset,
        },
        Setting::KvBits => ValueView::Int(c.bits as u64),
        Setting::KvDiskBudget => ValueView::Int(c.disk_budget_gib as u64),
        Setting::KvTtl => ValueView::Int(c.ttl_min as u64),
        Setting::KeepAlive => ValueView::Str(nat_decimal(c.keep_alive.0 as nat) + "s"@),
        Setting::MaxConcurrency => ValueView::Int(c.max_concurrency as u64),
        Setting::Telemetry => ValueView::Str("off"@),
    }
}

fn value_of(cfg: &Config, s: Setting) -> (r: EffectiveValue)
    ensures
        value_view(r) == value_spec(cfg@, s),
{
    match s {
        Setting::Host => EffectiveValue::Str(cfg.server.host.clone()),
        Setting::Port => EffectiveValue::Int(cfg.server.port as u64),
        Setting::ApiKey => EffectiveValue::Str(crate::secret::REDACTED.to_owned()),
        Setting::HideReasoning => EffectiveValue::Bool(cfg.server.hide_reasoning),
        Setting::ResponsesApi => EffectiveValue::Bool(cfg.server.responses_api),
        Setting::ModelsDefault => EffectiveValue::Str(cfg.models.default.clone()),
        Setting::StoragePath => EffectiveValue::Str(cfg.storage.path.clone()),
        Setting::ImportHfCache => EffectiveValue::Str(
            match cfg.storage.import_hf_cache {
                ImportHfCache::Clone => "clone".to_owned(),
                ImportHfCache::Copy => "copy".to_owned(),
                ImportHfCache::Off => "off".to_owned(),
            },
        ),
        Setting::KvDisk => match cfg.kv_cache.disk {
            Some(b) => EffectiveValue::Bool(b),
            None => EffectiveValue::Unset,
        },
        Setting::KvBits => EffectiveValue::Int(cfg.kv_cache.bits as u64),
        Setting::KvDiskBudget => EffectiveValue::Int(cfg.kv_cache.disk_budget_gib as u64),
        Setting::KvTtl => EffectiveValue::Int(cfg.kv_cache.ttl_min as u64),
        Setting::KeepAlive => {
            let mut t = String::new();
            push_u64(&mut t, cfg.runtime.keep_alive.as_secs());
            push_str(&mut t, "s");
            EffectiveValue::Str(t)
        },
        Setting::MaxConcurrency => EffectiveValue::Int(cfg.scheduler.max_concurrency as u64),
        Setting::Telemetry => EffectiveValue::Str("off".to_owned()),
    }
}

/// The layer the highest-precedence value for `key` comes from.
pub open spec fn source_spec(
    key: Seq<char>,
    file: Seq<(Seq<char>, Seq<char>)>,
    env: Map<Seq<char>, Seq<char>>,
    flags: Map<Seq<char>, Seq<char>>,
) -> Source {
    if flags.contains_key(key) {
        Source::Flag
    } else if env.contains_key(env_var(key)) {
        Source::Env
    } else if alist_get(file, key) is Some {
        Source::File
    } else {
        Source::Default
    }
}

/// The reported source is the highest layer that holds the key, in the order
/// flag, `DRAKKAR_*` variable, file, default: a flag for the key is reported
/// as the source whatever the environment and the file hold, and the layer
/// reported holds the very value the resolver takes for the key.
pub proof fn lemma_source_is_highest_layer(
    key: Seq<char>,
    file: Seq<(Seq<char>, Seq<char>)>,
    env: Map<Seq<char>, Seq<char>>,
    flags: Map<Seq<char>, Seq<char>>,
)
    ensures
        flags.contains_key(key) <==> source_spec(key, file, env, flags) == Source::Flag,
        source_spec(key, file, env, flags) == Source::Env <==> !flags.contains_key(key)
            && env.contains_key(env_var(key)),
        source_spec(key, file, env, flags) == Source::File <==> !flags.contains_key(key)
            && !env.contains_key(env_var(key)) && alist_get(file, key) is Some,
        source_spec(key, file, env, flags) == Source::Default <==> source_get(
            SourcesView::Layers { flags, env, file },
            key,
        ) is None,
        ({
            let got = source_get(SourcesView::Layers { flags, env, file }, key);
            match source_spec(key, file, env, flags) {
                Source::Flag => got == Some(flags[key]),
                Source::Env => got == Some(env[env_var(key)]),
                Source::File => got == alist_get(file, key),
                Source::Default => got is None,
            }
        }),
{
}

/// `effective` reports a flag as the source of a key whenever a flag sets
/// it, the `DRAKKAR_*` variable only when no flag does, and the file only
/// when neither does.
pub proof fn lemma_effective_source_precedence(
    key: Seq<char>,
    file: Option<Seq<char>>,
    env: Map<Seq<char>, Seq<char>>,
    flags: Map<Seq<char>, Seq<char>>,
)
    requires
        effective_spec(key, file, env, flags) is Ok,
    ensures
        ({
            let src = (effective_spec(key, file, env, flags)->Ok_0).1;
            &&& flags.contains_key(key) <==> src == Source::Flag
            &&& src == Source::Env <==> !flags.contains_key(key) && env.contains_key(env_var(key))
            &&& src == Source::File ==> !flags.contains_key(key) && !env.contains_key(env_var(key))
        }),
{
    let m = match file {
        None => Seq::<(Seq<char>, Seq<char>)>::empty(),
        Some(t) => file_map_spec(toml_document(t))->Ok_0,
    };
    lemma_source_is_highest_layer(key, m, env, flags);
}

/// What `effective` yields: an unknown or unsettable key is
/// `config.invalid_key`; otherwise the configuration must resolve, and the
/// key's value is reported with its layer.
pub open spec fn effective_spec(
    key: Seq<char>,
    file: Option<Seq<char>>,
    env: Map<Seq<char>, Seq<char>>,
    flags: Map<Seq<char>, Seq<char>>,
) -> Result<(ValueView, Source), DkErrorView> {
    match setting_of(key) {
        None => Err(invalid_key_view(key)),
        Some(s) => {
            let fm = match file {
                None => Ok(Seq::empty()),
                Some(t) => file_map_spec(toml_document(t)),
            };
            match fm {
                Err(e) => Err(e),
                Ok(m) => match resolve_sources(SourcesView::Layers { flags, env, file: m }) {
                    Err(e) => Err(e),
                    Ok(c) => Ok((value_spec(c, s), source_spec(key, m, env, flags))),
                },
            }
        },
    }
}

/// `BTreeMap::contains_key` on a string-keyed map, by the key's text.
#[verifier::external_body]
fn string_map_has(m: &BTreeMap<String, String>, key: &str) -> (r: bool)
    ensures
        r == str_map_view(m@).contains_key(key@),
{
    m.contains_key(key)
}

/// The effective value of `key` across the file, environment and flag
/// layers, and the layer it came from.
pub fn effective(
    key: &str,
    file: Option<&str>,
    env: &BTreeMap<String, String>,
    flags: &BTreeMap<String, String>,
) -> (r: Result<(EffectiveValue, Source), DkError>)
    ensures
        match effective_spec(
            key@,
            match file {
                Some(t) => Some(t@),
                None => None,
            },
            str_map_view(env@),
            str_map_view(flags@),
        ) {
            Ok(p) => r matches Ok(q) && value_view(q.0) == p.0 && q.1 == p.1,
            Err(e) => r matches Err(x) && x@ == e,
        },
{
    let s = match setting_for(key) {
        Some(s) => s,
        None => {
            return Err(invalid_key(key));
        },
    };
    let file_map = match file {
        Some(t) => load_file_map(t)?,
        None => FileMap::new(),
    };
    let cfg = resolve_layers(&file_map, env, flags)?;
    let source = if string_map_has(flags, key) {
        Source::Flag
    } else if string_map_has(env, env_var_for(key).as_str()) {
        Source::Env
    } else if file_map.get(key).is_some() {
        Source::File
    } else {
        Source::Default
    };
    Ok((value_of(&cfg, s), source))
}

/// How a reported value reads in human output: a string as itself, an
/// integer in decimal, a boolean as `true`/`false`, and an unset value as
/// `(unset)`.
pub open spec fn value_text(v: ValueView) -> Seq<char> {
    match v {
        ValueView::Str(s) => s,
        ValueView::Int(n) => nat_decimal(n as nat),
        ValueView::Bool(b) => if b {
            "true"@
        } else {
            "false"@
        },
        ValueView::Unset => "(unset)"@,
    }
}

/// The human line for `config get`: `key = value (source)`, with the key in
/// bold and the source dimmed when color is on.
pub open spec fn value_line(key: Seq<char>, v: ValueView, source: Source, color: bool) -> Seq<
    char,
> {
    if color {
        "\x1b[1m"@ + key + "\x1b[0m = "@ + value_text(v) + " \x1b[2m("@ + source_text(source)
            + ")\x1b[0m"@
    } else {
        key + " = "@ + value_text(v) + " ("@ + source_text(source) + ")"@
    }
}

/// Renders one key's effective value and its layer for a terminal.
pub fn render_value_line(key: &str, value: &EffectiveValue, source: Source, color: bool) -> (r:
    String)
    ensures
        r@ == value_line(key@, value_view(*value), source, color),
{
    let mut out = String::new();
    if color {
        push_str(&mut out, "\x1b[1m");
    }
    push_str(&mut out, key);
    if color {
        push_str(&mut out, "\x1b[0m = ");
    } else {
        push_str(&mut out, " = ");
    }
    match value {
        EffectiveValue::Str(s) => push_str(&mut out, s.as_str()),
        EffectiveValue::Int(n) => push_u64(&mut out, *n),
        EffectiveValue::Bool(b) => if *b {
            push_str(&mut out, "true");
        } else {
            push_str(&mut out, "false");
        },
        EffectiveValue::Unset => push_str(&mut out, "(unset)"),
    }
    if color {
        push_str(&mut out, " \x1b[2m(");
    } else {
        push_str(&mut out, " (");
    }
    push_str(&mut out, source.as_str());
    if color {
        push_str(&mut out, ")\x1b[0m");
    } else {
        push_str(&mut out, ")");
    }
    proof {
        if color {
            assert(out@ =~= value_line(key@, value_view(*value), source, color));
        } else {
            assert(out@ =~= value_line(key@, value_view(*value), source, color));
        }
    }
    out
}

} // verus!
