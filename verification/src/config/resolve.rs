//! The four-level precedence resolver: flags > `DRAKKAR_*` env > file >
//! defaults, applied key by key in a fixed order; the first mistyped or
//! out-of-range value is the error.

use std::collections::BTreeMap;

use vstd::prelude::*;

use super::file::{FileMap, alist_get, file_map_spec, known_key, is_known_key, load_file_map, toml_document};
use super::settings::{Setting, apply_setting, set_spec, setting_key, setting_order};
use super::{Config, ConfigView, default_view, invalid_key, invalid_key_view, to_toml, toml_text};
use crate::error::{DkError, DkErrorView};
use crate::ids::ascii_upper;
use crate::secret::Secret;
use crate::text::{chars_of, push_char, push_str, str_eq};

verus! {

/// The contents of a string-keyed map, keyed and valued by characters.
pub open spec fn str_map_view(m: Map<String, String>) -> Map<Seq<char>, Seq<char>> {
    Map::new(
        |k: Seq<char>| exists|s: String| m.contains_key(s) && s@ == k,
        |k: Seq<char>| m[choose|s: String| m.contains_key(s) && s@ == k]@,
    )
}

/// `BTreeMap::get` on a string-keyed map: the value stored under the key
/// whose text is `key`, if there is one (keys compare by their text).
#[verifier::external_body]
fn string_map_get<'a>(m: &'a BTreeMap<String, String>, key: &str) -> (r: Option<&'a String>)
    ensures
        r matches Some(v) ==> str_map_view(m@).contains_key(key@) && v@ == str_map_view(
            m@,
        )[key@],
        r is None ==> !str_map_view(m@).contains_key(key@),
{
    m.get(key)
}

/// The environment variable a dotted key maps to: `DRAKKAR_` followed by the
/// key uppercased with `.` turned into `_` (`server.port` ⇔
/// `DRAKKAR_SERVER_PORT`).
pub open spec fn env_var(key: Seq<char>) -> Seq<char> {
    "DRAKKAR_"@ + key.map_values(
        |c: char|
            if c == '.' {
                '_'
            } else {
                ascii_upper(c)
            },
    )
}

/// The environment variable for a dotted key (the keys are ASCII, so
/// uppercasing is ASCII uppercasing).
pub fn env_var_for(key: &str) -> (r: String)
    ensures
        r@ == env_var(key@),
{
    let v = chars_of(key);
    let mut out = String::new();
    push_str(&mut out, "DRAKKAR_");
    let ghost prefix = out@;
    let mut i: usize = 0;
    while i < v.len()
        invariant
            i <= v@.len(),
            v@ == key@,
            prefix == "DRAKKAR_"@,
            out@ == prefix + key@.subrange(0, i as int).map_values(
                |c: char|
                    if c == '.' {
                        '_'
                    } else {
                        ascii_upper(c)
                    },
            ),
        decreases v@.len() - i,
    {
        let c = v[i];
        let u = if c == '.' {
            '_'
        } else if 'a' <= c && c <= 'z' {
            ((c as u8) - 32) as char
        } else {
            c
        };
        push_char(&mut out, u);
        i = i + 1;
        assert(out@ =~= prefix + key@.subrange(0, i as int).map_values(
            |c: char|
                if c == '.' {
                    '_'
                } else {
                    ascii_upper(c)
                },
        ));
    }
    assert(key@.subrange(0, key@.len() as int) =~= key@);
    out
}

/// Where setting values come from: the flag, environment and file layers, or
/// a single `key = value` written over a file.
pub enum SourcesView {
    /// Flags over environment over file.
    Layers {
        flags: Map<Seq<char>, Seq<char>>,
        env: Map<Seq<char>, Seq<char>>,
        file: Seq<(Seq<char>, Seq<char>)>,
    },
    /// One key set over the file's entries.
    Overlay { key: Seq<char>, value: Seq<char>, file: Seq<(Seq<char>, Seq<char>)> },
}

/// The value the sources give `key`: a flag, else the `DRAKKAR_*` variable,
/// else the file.
pub open spec fn source_get(s: SourcesView, key: Seq<char>) -> Option<Seq<char>> {
    match s {
        SourcesView::Layers { flags, env, file } => if flags.contains_key(key) {
            Some(flags[key])
        } else if env.contains_key(env_var(key)) {
            Some(env[env_var(key)])
        } else {
            alist_get(file, key)
        },
        SourcesView::Overlay { key: k, value, file } => if key == k {
            Some(value)
        } else {
            alist_get(file, key)
        },
    }
}

/// The configuration after applying the first `n` settings of the order to
/// the defaults, or the first error.
pub open spec fn resolve_steps(s: SourcesView, n: nat) -> Result<ConfigView, DkErrorView>
    decreases n,
{
    if n == 0 {
        Ok(default_view())
    } else {
        match resolve_steps(s, (n - 1) as nat) {
            Err(e) => Err(e),
            Ok(c) => {
                let st = setting_order()[n - 1];
                match source_get(s, setting_key(st)) {
                    None => Ok(c),
                    Some(v) => set_spec(c, st, v),
                }
            },
        }
    }
}

/// The resolved configuration for the given sources.
pub open spec fn resolve_sources(s: SourcesView) -> Result<ConfigView, DkErrorView> {
    resolve_steps(s, 15)
}

/// What `resolve` yields: the file read (when given), then every setting
/// from the highest-precedence layer that has it.
pub open spec fn resolve_spec(
    file: Option<Seq<char>>,
    env: Map<Seq<char>, Seq<char>>,
    flags: Map<Seq<char>, Seq<char>>,
) -> Result<ConfigView, DkErrorView> {
    let fm = match file {
        None => Ok(Seq::empty()),
        Some(t) => file_map_spec(toml_document(t)),
    };
    match fm {
        Err(e) => Err(e),
        Ok(m) => resolve_sources(SourcesView::Layers { flags, env, file: m }),
    }
}

/// The view of a resolution result.
pub open spec fn config_result(r: Result<Config, DkError>) -> Result<ConfigView, DkErrorView> {
    match r {
        Ok(c) => Ok(c@),
        Err(e) => Err(e@),
    }
}

enum Sources<'a> {
    Layers {
        flags: &'a BTreeMap<String, String>,
        env: &'a BTreeMap<String, String>,
        file: &'a FileMap,
    },
    Overlay { key: &'a str, value: &'a str, file: &'a FileMap },
}

impl<'a> View for Sources<'a> {
    type V = SourcesView;

    closed spec fn view(&self) -> SourcesView {
        match self {
            Sources::Layers { flags, env, file } => SourcesView::Layers {
                flags: str_map_view(flags@),
                env: str_map_view(env@),
                file: file@,
            },
            Sources::Overlay { key, value, file } => SourcesView::Overlay {
                key: key@,
                value: value@,
                file: file@,
            },
        }
    }
}

impl<'a> Sources<'a> {
    fn get(&self, key: &str) -> (r: Option<String>)
        ensures
            r matches Some(v) ==> source_get(self@, key@) == Some(v@),
            r is None ==> source_get(self@, key@) is None,
    {
        match self {
            Sources::Layers { flags, env, file } => {
                match string_map_get(flags, key) {
                    Some(v) => Some(v.clone()),
                    None => {
                        let var = env_var_for(key);
                        match string_map_get(env, var.as_str()) {
                            Some(v) => Some(v.clone()),
                            None => file.get(key),
                        }
                    },
                }
            },
            Sources::Overlay { key: k, value, file } => {
                if str_eq(key, k) {
                    Some((*value).to_owned())
                } else {
                    file.get(key)
                }
            },
        }
    }
}

/// Once resolution fails it stays failed with the same error.
proof fn lemma_resolve_steps_err(s: SourcesView, k: nat, n: nat)
    requires
        k <= n,
        resolve_steps(s, k) is Err,
    ensures
        resolve_steps(s, n) == resolve_steps(s, k),
    decreases n,
{
    if n > k {
        lemma_resolve_steps_err(s, k, (n - 1) as nat);
    }
}

fn resolve_core(src: &Sources) -> (r: Result<Config, DkError>)
    ensures
        config_result(r) == resolve_sources(src@),
{
    let mut cfg = Config::default();
    let mut i: usize = 0;
    while i < 15
        invariant
            i <= 15,
            resolve_steps(src@, i as nat) == Ok::<_, DkErrorView>(cfg@),
        decreases 15 - i,
    {
        let st = Setting::at(i);
        match src.get(st.key()) {
            None => {},
            Some(v) => {
                match apply_setting(&mut cfg, st, v) {
                    Ok(()) => {},
                    Err(e) => {
                        proof {
                            lemma_resolve_steps_err(src@, (i + 1) as nat, 15);
                        }
                        return Err(e);
                    },
                }
            },
        }
        i = i + 1;
    }
    Ok(cfg)
}

/// Resolves a configuration from an already-read file map and the
/// environment and flag layers.
pub fn resolve_layers(
    file: &FileMap,
    env: &BTreeMap<String, String>,
    flags: &BTreeMap<String, String>,
) -> (r: Result<Config, DkError>)
    ensures
        config_result(r) == resolve_sources(
            SourcesView::Layers { flags: str_map_view(flags@), env: str_map_view(env@), file: file@ },
        ),
{
    resolve_core(&Sources::Layers { flags, env, file })
}

/// Resolves a configuration from the four sources in precedence order
/// (flags > `DRAKKAR_*` env > file > defaults). `env` is the raw environment
/// map (e.g. `DRAKKAR_SERVER_PORT`) and `flags` a `section.key -> value` map
/// from the command line.
pub fn resolve(
    file: Option<&str>,
    env: &BTreeMap<String, String>,
    flags: &BTreeMap<String, String>,
) -> (r: Result<Config, DkError>)
    ensures
        config_result(r) == resolve_spec(
            match file {
                Some(t) => Some(t@),
                None => None,
            },
            str_map_view(env@),
            str_map_view(flags@),
        ),
{
    let file_map = match file {
        Some(s) => load_file_map(s)?,
        None => FileMap::new(),
    };
    resolve_layers(&file_map, env, flags)
}

/// What `validate_key_value` yields: an unknown key (or `schema`) is
/// `config.invalid_key`; otherwise the value must resolve as a one-key
/// overlay.
pub open spec fn validate_spec(key: Seq<char>, value: Seq<char>) -> Result<(), DkErrorView> {
    if key == "schema"@ || !known_key(key) {
        Err(invalid_key_view(key))
    } else {
        match resolve_sources(SourcesView::Overlay { key, value, file: Seq::empty() }) {
            Ok(_) => Ok(()),
            Err(e) => Err(e),
        }
    }
}

/// Checks that `key` is a settable key and `value` is well-typed and in range,
/// the validation run before a value is written to the file.
pub fn validate_key_value(key: &str, value: &str) -> (r: Result<(), DkError>)
    ensures
        match validate_spec(key@, value@) {
            Ok(_) => r is Ok,
            Err(e) => r matches Err(x) && x@ == e,
        },
{
    if str_eq(key, "schema") || !is_known_key(key) {
        return Err(invalid_key(key));
    }
    let empty = FileMap::new();
    match resolve_core(&Sources::Overlay { key, value, file: &empty }) {
        Ok(_) => Ok(()),
        Err(e) => Err(e),
    }
}

/// Two sources that agree on every key resolve to the same result.
pub proof fn lemma_resolve_depends_only_on_values(a: SourcesView, b: SourcesView, n: nat)
    requires
        forall|k: Seq<char>| source_get(a, k) == source_get(b, k),
    ensures
        resolve_steps(a, n) == resolve_steps(b, n),
    decreases n,
{
    if n > 0 {
        lemma_resolve_depends_only_on_values(a, b, (n - 1) as nat);
        let st = setting_order()[n - 1];
        assert(source_get(a, setting_key(st)) == source_get(b, setting_key(st)));
    }
}

/// Writing one key over a file resolves as that key given as the only flag
/// over the file, with no environment.
pub proof fn lemma_overlay_is_one_flag(
    key: Seq<char>,
    value: Seq<char>,
    file: Seq<(Seq<char>, Seq<char>)>,
)
    ensures
        resolve_sources(SourcesView::Overlay { key, value, file }) == resolve_sources(
            SourcesView::Layers { flags: Map::empty().insert(key, value), env: Map::empty(), file },
        ),
{
    let a = SourcesView::Overlay { key, value, file };
    let b = SourcesView::Layers { flags: Map::empty().insert(key, value), env: Map::empty(), file };
    assert forall|k: Seq<char>| source_get(a, k) == source_get(b, k) by {
        if k != key {
            assert(!Map::<Seq<char>, Seq<char>>::empty().contains_key(env_var(k)));
        }
    }
    lemma_resolve_depends_only_on_values(a, b, 15);
}

/// Validating a value is resolving it as the only flag: a one-key flag map
/// over an empty environment and no file gives the same result as the
/// one-key overlay `validate_key_value` checks.
pub proof fn lemma_validate_is_one_flag_overlay(key: Seq<char>, value: Seq<char>)
    ensures
        resolve_sources(SourcesView::Overlay { key, value, file: Seq::empty() }) == resolve_spec(
            None,
            Map::empty(),
            Map::empty().insert(key, value),
        ),
{
    lemma_overlay_is_one_flag(key, value, Seq::empty());
}

/// The API key a server uses: `--api-key` over `DRAKKAR_API_KEY` over
/// `server.api_key` in the configuration.
pub open spec fn api_key_spec(
    flag: Option<Seq<char>>,
    env: Map<Seq<char>, Seq<char>>,
    cfg: ConfigView,
) -> Seq<char> {
    match flag {
        Some(f) => f,
        None => if env.contains_key("DRAKKAR_API_KEY"@) {
            env["DRAKKAR_API_KEY"@]
        } else {
            cfg.api_key
        },
    }
}

/// Resolves the server API key: the `--api-key` flag, else the
/// `DRAKKAR_API_KEY` variable, else the configured key (possibly empty).
pub fn resolve_api_key(
    flag: Option<&str>,
    env: &BTreeMap<String, String>,
    cfg: &Config,
) -> (r: Secret<String>)
    ensures
        r.raw()@ == api_key_spec(
            match flag {
                Some(f) => Some(f@),
                None => None,
            },
            str_map_view(env@),
            cfg@,
        ),
{
    match flag {
        Some(f) => Secret::new(f.to_owned()),
        None => match string_map_get(env, "DRAKKAR_API_KEY") {
            Some(v) => Secret::new(v.clone()),
            None => Secret::new(cfg.server.api_key.expose().clone()),
        },
    }
}

/// What `config set key value` writes: nothing when the key or value is
/// rejected; else the existing file (if any) read and resolved with the value
/// as the only flag, written back out in full.
pub open spec fn set_text_spec(existing: Option<Seq<char>>, key: Seq<char>, value: Seq<char>) -> Result<
    Seq<char>,
    DkErrorView,
> {
    match validate_spec(key, value) {
        Err(e) => Err(e),
        Ok(_) => match resolve_spec(existing, Map::empty(), Map::empty().insert(key, value)) {
            Err(e) => Err(e),
            Ok(c) => Ok(toml_text(c)),
        },
    }
}

/// The new text of `config.toml` after setting `key` to `value` over the
/// `existing` text (`None` when there is no readable file). The key and value
/// are validated before anything else, so a rejected value leaves nothing to
/// write.
pub fn set_text(existing: Option<&str>, key: &str, value: &str) -> (r: Result<String, DkError>)
    ensures
        match set_text_spec(
            match existing {
                Some(t) => Some(t@),
                None => None,
            },
            key@,
            value@,
        ) {
            Ok(t) => r matches Ok(x) && x@ == t,
            Err(e) => r matches Err(x) && x@ == e,
        },
{
    match validate_key_value(key, value) {
        Ok(()) => {},
        Err(e) => {
            return Err(e);
        },
    }
    let file_map = match existing {
        Some(t) => match load_file_map(t) {
            Ok(m) => m,
            Err(e) => {
                return Err(e);
            },
        },
        None => FileMap::new(),
    };
    proof {
        lemma_overlay_is_one_flag(key@, value@, file_map@);
    }
    match resolve_core(&Sources::Overlay { key, value, file: &file_map }) {
        Ok(cfg) => Ok(to_toml(&cfg)),
        Err(e) => Err(e),
    }
}

} // verus!
