//! The settable keys, in the order the resolver applies them, and the
//! per-key parse/validate step that writes one value into a configuration.

use vstd::prelude::*;

use super::{
    Config, ConfigView, ImportHfCache, Telemetry, bool_of, invalid_value, invalid_value_view,
    parse_bool,
};
use crate::error::{DkError, DkErrorView};
use crate::secret::Secret;
use crate::text::{
    chars_of, is_digit, parse_unsigned, parse_unsigned_chars, str_eq, trim_bounds, trimmed,
};
use crate::time::{Duration, millis_view};

verus! {

/// The index of the first character of `t` at or after `i` that is not an
/// ASCII digit, or `-1`.
pub open spec fn first_non_digit(t: Seq<char>, i: int) -> int
    decreases t.len() - i,
{
    if i < 0 || i >= t.len() {
        -1
    } else if !is_digit(t[i]) {
        i
    } else {
        first_non_digit(t, i + 1)
    }
}

/// `n * k`, clamped to `u64::MAX`.
pub open spec fn sat_mul_u64(n: nat, k: nat) -> u64 {
    if n * k > u64::MAX {
        u64::MAX
    } else {
        (n * k) as u64
    }
}

/// The duration a trimmed text denotes: digits followed by `ms`, `s`, `m` or
/// `h` (minutes and hours saturate), as (seconds, nanoseconds).
pub open spec fn duration_of(t: Seq<char>) -> Option<(u64, u32)> {
    let i = first_non_digit(t, 0);
    if i < 0 {
        None
    } else {
        let suffix = t.subrange(i, t.len() as int);
        match parse_unsigned(t.subrange(0, i), u64::MAX as nat) {
            None => None,
            Some(n) => if suffix == "ms"@ {
                Some(millis_view(n as u64))
            } else if suffix == "s"@ {
                Some((n as u64, 0u32))
            } else if suffix == "m"@ {
                Some((sat_mul_u64(n, 60), 0u32))
            } else if suffix == "h"@ {
                Some((sat_mul_u64(n, 3600), 0u32))
            } else {
                None
            },
        }
    }
}

/// What `parse_duration` expects, quoted in its error.
pub open spec fn duration_expected() -> Seq<char> {
    "a duration like '30m', '90s', '2h', or '500ms'"@
}

fn mul_saturating(n: u64, k: u64) -> (r: u64)
    ensures
        r == sat_mul_u64(n as nat, k as nat),
{
    match n.checked_mul(k) {
        Some(p) => p,
        None => u64::MAX,
    }
}

/// Parses a suffixed duration (`"30m"`, `"90s"`, `"2h"`, `"500ms"`), ignoring
/// surrounding white space.
pub fn parse_duration(key: &str, s: &str) -> (r: Result<Duration, DkError>)
    ensures
        r matches Ok(d) ==> duration_of(trimmed(s@)) == Some(d@),
        r matches Err(e) ==> duration_of(trimmed(s@)) is None && e@ == invalid_value_view(
            key@,
            s@,
            duration_expected(),
        ),
{
    let v = chars_of(s);
    let (a, b) = trim_bounds(v.as_slice());
    let ghost t = v@.subrange(a as int, b as int);
    let mut i = a;
    while i < b && '0' <= v[i] && v[i] <= '9'
        invariant
            a <= i <= b,
            b <= v@.len(),
            t == v@.subrange(a as int, b as int),
            first_non_digit(t, 0) == first_non_digit(t, i - a),
        decreases b - i,
    {
        i = i + 1;
    }
    if i == b {
        return Err(invalid_value(key, s, "a duration like '30m', '90s', '2h', or '500ms'"));
    }
    assert(first_non_digit(t, 0) == i - a);
    let n = match parse_unsigned_chars(v.as_slice(), a, i, u64::MAX) {
        Some(n) => n,
        None => {
            proof {
                assert(v@.subrange(a as int, i as int) =~= t.subrange(0, i - a));
            }
            return Err(invalid_value(key, s, "a duration like '30m', '90s', '2h', or '500ms'"));
        },
    };
    proof {
        assert(v@.subrange(a as int, i as int) =~= t.subrange(0, i - a));
        assert(v@.subrange(i as int, b as int) =~= t.subrange(i - a, t.len() as int));
    }
    let suffix = crate::text::sub_chars(v.as_slice(), i, b);
    let ms = chars_of("ms");
    let sec = chars_of("s");
    let min = chars_of("m");
    let hour = chars_of("h");
    if crate::text::chars_eq(suffix.as_slice(), ms.as_slice()) {
        Ok(Duration::from_millis(n))
    } else if crate::text::chars_eq(suffix.as_slice(), sec.as_slice()) {
        Ok(Duration::from_secs(n))
    } else if crate::text::chars_eq(suffix.as_slice(), min.as_slice()) {
        Ok(Duration::from_secs(mul_saturating(n, 60)))
    } else if crate::text::chars_eq(suffix.as_slice(), hour.as_slice()) {
        Ok(Duration::from_secs(mul_saturating(n, 3600)))
    } else {
        Err(invalid_value(key, s, "a duration like '30m', '90s', '2h', or '500ms'"))
    }
}

/// One settable key.
#[derive(Clone, Copy, PartialEq, Eq, Debug, Structural)]
pub enum Setting {
    /// `server.host`.
    Host,
    /// `server.port`.
    Port,
    /// `server.api_key`.
    ApiKey,
    /// `server.hide_reasoning`.
    HideReasoning,
    /// `server.responses_api`.
    ResponsesApi,
    /// `models.default`.
    ModelsDefault,
    /// `storage.path`.
    StoragePath,
    /// `storage.import_hf_cache`.
    ImportHfCache,
    /// `kv_cache.disk`.
    KvDisk,
    /// `kv_cache.bits`.
    KvBits,
    /// `kv_cache.disk_budget_gib`.
    KvDiskBudget,
    /// `kv_cache.ttl_min`.
    KvTtl,
    /// `runtime.keep_alive`.
    KeepAlive,
    /// `scheduler.max_concurrency`.
    MaxConcurrency,
    /// `telemetry`.
    Telemetry,
}

/// The dotted key of a setting.
pub open spec fn setting_key(s: Setting) -> Seq<char> {
    match s {
        Setting::Host => "server.host"@,
        Setting::Port => "server.port"@,
        Setting::ApiKey => "server.api_key"@,
        Setting::HideReasoning => "server.hide_reasoning"@,
        Setting::ResponsesApi => "server.responses_api"@,
        Setting::ModelsDefault => "models.default"@,
        Setting::StoragePath => "storage.path"@,
        Setting::ImportHfCache => "storage.import_hf_cache"@,
        Setting::KvDisk => "kv_cache.disk"@,
        Setting::KvBits => "kv_cache.bits"@,
        Setting::KvDiskBudget => "kv_cache.disk_budget_gib"@,
        Setting::KvTtl => "kv_cache.ttl_min"@,
        Setting::KeepAlive => "runtime.keep_alive"@,
        Setting::MaxConcurrency => "scheduler.max_concurrency"@,
        Setting::Telemetry => "telemetry"@,
    }
}

/// The settings in the order the resolver applies them.
pub open spec fn setting_order() -> Seq<Setting> {
    seq![
        Setting::Host,
        Setting::Port,
        Setting::ApiKey,
        Setting::HideReasoning,
        Setting::ResponsesApi,
        Setting::ModelsDefault,
        Setting::StoragePath,
        Setting::ImportHfCache,
        Setting::KvDisk,
        Setting::KvBits,
        Setting::KvDiskBudget,
        Setting::KvTtl,
        Setting::KeepAlive,
        Setting::MaxConcurrency,
        Setting::Telemetry,
    ]
}

impl Setting {
    /// The dotted key.
    pub fn key(self) -> (r: &'static str)
        ensures
            r@ == setting_key(self),
    {
        match self {
            Setting::Host => "server.host",
            Setting::Port => "server.port",
            Setting::ApiKey => "server.api_key",
            Setting::HideReasoning => "server.hide_reasoning",
            Setting::ResponsesApi => "server.responses_api",
            Setting::ModelsDefault => "models.default",
            Setting::StoragePath => "storage.path",
            Setting::ImportHfCache => "storage.import_hf_cache",
            Setting::KvDisk => "kv_cache.disk",
            Setting::KvBits => "kv_cache.bits",
            Setting::KvDiskBudget => "kv_cache.disk_budget_gib",
            Setting::KvTtl => "kv_cache.ttl_min",
            Setting::KeepAlive => "runtime.keep_alive",
            Setting::MaxConcurrency => "scheduler.max_concurrency",
            Setting::Telemetry => "telemetry",
        }
    }

    /// The setting at position `i` of the resolver's order.
    pub fn at(i: usize) -> (r: Setting)
        requires
            i < 15,
        ensures
            r == setting_order()[i as int],
    {
        if i == 0 {
            Setting::Host
        } else if i == 1 {
            Setting::Port
        } else if i == 2 {
            Setting::ApiKey
        } else if i == 3 {
            Setting::HideReasoning
        } else if i == 4 {
            Setting::ResponsesApi
        } else if i == 5 {
            Setting::ModelsDefault
        } else if i == 6 {
            Setting::StoragePath
        } else if i == 7 {
            Setting::ImportHfCache
        } else if i == 8 {
            Setting::KvDisk
        } else if i == 9 {
            Setting::KvBits
        } else if i == 10 {
            Setting::KvDiskBudget
        } else if i == 11 {
            Setting::KvTtl
        } else if i == 12 {
            Setting::KeepAlive
        } else if i == 13 {
            Setting::MaxConcurrency
        } else {
            Setting::Telemetry
        }
    }
}

/// `n` parsed as a `u32` (`str::parse::<u32>`).
pub open spec fn u32_of(v: Seq<char>) -> Option<nat> {
    parse_unsigned(v, u32::MAX as nat)
}

/// Writes value `v` for setting `s` into `c`, or the named error for a
/// mistyped or out-of-range value.
pub open spec fn set_spec(c: ConfigView, s: Setting, v: Seq<char>) -> Result<
    ConfigView,
    DkErrorView,
> {
    match s {
        Setting::Host => Ok(ConfigView { host: v, ..c }),
        Setting::Port => match u32_of(v) {
            Some(n) => if 1 <= n <= 65535 {
                Ok(ConfigView { port: n as u16, ..c })
            } else {
                Err(invalid_value_view(setting_key(s), v, "a port in 1..=65535"@))
            },
            None => Err(invalid_value_view(setting_key(s), v, "a port in 1..=65535"@)),
        },
        Setting::ApiKey => Ok(ConfigView { api_key: v, ..c }),
        Setting::HideReasoning => match bool_of(v) {
            Some(b) => Ok(ConfigView { hide_reasoning: b, ..c }),
            None => Err(invalid_value_view(setting_key(s), v, "true | false"@)),
        },
        Setting::ResponsesApi => match bool_of(v) {
            Some(b) => Ok(ConfigView { responses_api: b, ..c }),
            None => Err(invalid_value_view(setting_key(s), v, "true | false"@)),
        },
        Setting::ModelsDefault => Ok(ConfigView { default_model: v, ..c }),
        Setting::StoragePath => Ok(ConfigView { path: v, ..c }),
        Setting::ImportHfCache => if v == "clone"@ {
            Ok(ConfigView { import_hf_cache: ImportHfCache::Clone, ..c })
        } else if v == "copy"@ {
            Ok(ConfigView { import_hf_cache: ImportHfCache::Copy, ..c })
        } else if v == "off"@ {
            Ok(ConfigView { import_hf_cache: ImportHfCache::Off, ..c })
        } else {
            Err(invalid_value_view(setting_key(s), v, "'clone' | 'copy' | 'off'"@))
        },
        Setting::KvDisk => match bool_of(v) {
            Some(b) => Ok(ConfigView { disk: Some(b), ..c }),
            None => Err(invalid_value_view(setting_key(s), v, "true | false"@)),
        },
        Setting::KvBits => match parse_unsigned(v, 255) {
            Some(n) => if n == 16 || n == 8 || n == 4 {
                Ok(ConfigView { bits: n as u8, ..c })
            } else {
                Err(invalid_value_view(setting_key(s), v, "16 | 8 | 4"@))
            },
            None => Err(invalid_value_view(setting_key(s), v, "16 | 8 | 4"@)),
        },
        Setting::KvDiskBudget => match u32_of(v) {
            Some(n) => Ok(ConfigView { disk_budget_gib: n as u32, ..c }),
            None => Err(invalid_value_view(setting_key(s), v, "a non-negative integer"@)),
        },
        Setting::KvTtl => match u32_of(v) {
            Some(n) => Ok(ConfigView { ttl_min: n as u32, ..c }),
            None => Err(invalid_value_view(setting_key(s), v, "a non-negative integer"@)),
        },
        Setting::KeepAlive => match duration_of(trimmed(v)) {
            Some(d) => Ok(ConfigView { keep_alive: d, ..c }),
            None => Err(invalid_value_view(setting_key(s), v, duration_expected())),
        },
        Setting::MaxConcurrency => match u32_of(v) {
            Some(n) => if n != 0 {
                Ok(ConfigView { max_concurrency: n as u32, ..c })
            } else {
                Err(invalid_value_view(setting_key(s), v, "a positive integer"@))
            },
            None => Err(invalid_value_view(setting_key(s), v, "a positive integer"@)),
        },
        Setting::Telemetry => if v == "off"@ {
            Ok(ConfigView { telemetry: Telemetry::Off, ..c })
        } else {
            Err(invalid_value_view(setting_key(s), v, "'off' (the only accepted value in v1)"@))
        },
    }
}

fn parse_u32_text(v: &str) -> (r: Option<u32>)
    ensures
        r matches Some(n) ==> u32_of(v@) == Some(n as nat),
        r is None ==> u32_of(v@) is None,
{
    let c = chars_of(v);
    assert(c@.subrange(0, c@.len() as int) =~= c@);
    match parse_unsigned_chars(c.as_slice(), 0, c.len(), u32::MAX as u64) {
        Some(n) => Some(n as u32),
        None => None,
    }
}

/// Writes value `v` for setting `s` into `cfg`, or returns the named error.
#[verifier::rlimit(40)]
pub fn apply_setting(cfg: &mut Config, s: Setting, v: String) -> (r: Result<(), DkError>)
    ensures
        match set_spec(old(cfg)@, s, v@) {
            Ok(c) => r is Ok && final(cfg)@ == c,
            Err(e) => r matches Err(x) && x@ == e,
        },
{
    let key = s.key();
    match s {
        Setting::Host => {
            cfg.server.host = v;
            Ok(())
        },
        Setting::Port => match parse_u32_text(v.as_str()) {
            Some(n) => {
                if 1 <= n && n <= 65535 {
                    cfg.server.port = n as u16;
                    Ok(())
                } else {
                    Err(invalid_value(key, v.as_str(), "a port in 1..=65535"))
                }
            },
            None => Err(invalid_value(key, v.as_str(), "a port in 1..=65535")),
        },
        Setting::ApiKey => {
            cfg.server.api_key = Secret::new(v);
            Ok(())
        },
        Setting::HideReasoning => {
            let b = parse_bool(key, v.as_str())?;
            cfg.server.hide_reasoning = b;
            Ok(())
        },
        Setting::ResponsesApi => {
            let b = parse_bool(key, v.as_str())?;
            cfg.server.responses_api = b;
            Ok(())
        },
        Setting::ModelsDefault => {
            cfg.models.default = v;
            Ok(())
        },
        Setting::StoragePath => {
            cfg.storage.path = v;
            Ok(())
        },
        Setting::ImportHfCache => {
            if str_eq(v.as_str(), "clone") {
                cfg.storage.import_hf_cache = ImportHfCache::Clone;
                Ok(())
            } else if str_eq(v.as_str(), "copy") {
                cfg.storage.import_hf_cache = ImportHfCache::Copy;
                Ok(())
            } else if str_eq(v.as_str(), "off") {
                cfg.storage.import_hf_cache = ImportHfCache::Off;
                Ok(())
            } else {
                Err(invalid_value(key, v.as_str(), "'clone' | 'copy' | 'off'"))
            }
        },
        Setting::KvDisk => {
            let b = parse_bool(key, v.as_str())?;
            cfg.kv_cache.disk = Some(b);
            Ok(())
        },
        Setting::KvBits => {
            let c = chars_of(v.as_str());
            assert(c@.subrange(0, c@.len() as int) =~= c@);
            match parse_unsigned_chars(c.as_slice(), 0, c.len(), 255) {
                Some(n) => {
                    if n == 16 || n == 8 || n == 4 {
                        cfg.kv_cache.bits = n as u8;
                        Ok(())
                    } else {
                        Err(invalid_value(key, v.as_str(), "16 | 8 | 4"))
                    }
                },
                None => Err(invalid_value(key, v.as_str(), "16 | 8 | 4")),
            }
        },
        Setting::KvDiskBudget => match parse_u32_text(v.as_str()) {
            Some(n) => {
                cfg.kv_cache.disk_budget_gib = n;
                Ok(())
            },
            None => Err(invalid_value(key, v.as_str(), "a non-negative integer")),
        },
        Setting::KvTtl => match parse_u32_text(v.as_str()) {
            Some(n) => {
                cfg.kv_cache.ttl_min = n;
                Ok(())
            },
            None => Err(invalid_value(key, v.as_str(), "a non-negative integer")),
        },
        Setting::KeepAlive => {
            let d = parse_duration(key, v.as_str())?;
            cfg.runtime.keep_alive = d;
            Ok(())
        },
        Setting::MaxConcurrency => match parse_u32_text(v.as_str()) {
            Some(n) => {
                if n != 0 {
                    cfg.scheduler.max_concurrency = n;
                    Ok(())
                } else {
                    Err(invalid_value(key, v.as_str(), "a positive integer"))
                }
            },
            None => Err(invalid_value(key, v.as_str(), "a positive integer")),
        },
        Setting::Telemetry => {
            if str_eq(v.as_str(), "off") {
                cfg.telemetry = Telemetry::Off;
                Ok(())
            } else {
                Err(invalid_value(key, v.as_str(), "'off' (the only accepted value in v1)"))
            }
        },
    }
}

} // verus!
