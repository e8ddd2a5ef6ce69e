//! Reading back what `to_toml` writes. `toml_entries(c)` is this library's
//! account of the entries a TOML parser reads from `toml_text(c)` when no
//! string in it needs escaping; the proofs here show that flattening, gating
//! and resolving those entries gives `c` again. The `toml` crate's own result
//! on the text is the named `toml_document`, which nothing here evaluates.

use vstd::prelude::*;

use super::file::{
    EntryView, ScalarView, alist_get, alist_index, alist_insert, alist_keys, file_map_spec, flatten,
    flatten_section, known_key, least_unknown, schema_gate, toml_document,
};
use super::precedence::{field_of, lemma_resolution_succeeds, lemma_resolved_setting_is_highest_layer};
use super::resolve::{SourcesView, resolve_sources, resolve_spec, set_text_spec, source_get};
use super::settings::{Setting, duration_of, first_non_digit, set_spec, setting_key};
use super::{ConfigView, Telemetry, bool_text, default_view, import_text, toml_text};
use crate::error::DkErrorView;
use crate::ids::{lemma_nat_decimal_digits, lemma_schema_tag_round_trip, schema_tag_text};
use crate::text::{int_decimal, nat_decimal, parse_unsigned, trimmed};

verus! {

/// The `[kv_cache]` table's entries in key order; `disk` only when set.
pub open spec fn toml_kv_entries(c: ConfigView) -> Seq<(Seq<char>, ScalarView)> {
    let bits = seq![("bits"@, ScalarView::Int(c.bits as i64))];
    let head = match c.disk {
        Some(d) => bits.push(("disk"@, ScalarView::Bool(d))),
        None => bits,
    };
    head.push(("disk_budget_gib"@, ScalarView::Int(c.disk_budget_gib as i64))).push(
        ("ttl_min"@, ScalarView::Int(c.ttl_min as i64)),
    )
}

/// The `[server]` table's entries in key order.
pub open spec fn toml_server_entries(c: ConfigView) -> Seq<(Seq<char>, ScalarView)> {
    seq![("api_key"@, ScalarView::Str(c.api_key))].push(
        ("hide_reasoning"@, ScalarView::Bool(c.hide_reasoning)),
    ).push(("host"@, ScalarView::Str(c.host))).push(
        ("port"@, ScalarView::Int(c.port as i64)),
    ).push(("responses_api"@, ScalarView::Bool(c.responses_api)))
}

/// The entries a TOML parser reads from `toml_text(c)` when its strings are
/// plain (see [`plain_text`]), listed as a sorted table lists them: the
/// top-level keys in order (`kv_cache`, `models`, `runtime`, `scheduler`,
/// `schema`, `server`, `storage`, `telemetry`), each table's keys sorted too;
/// quoted values are strings, bare numbers integers, `true`/`false` booleans.
/// This is a model of the parse, not the `toml` crate's result.
pub open spec fn toml_entries(c: ConfigView) -> Seq<(Seq<char>, EntryView)> {
    seq![("kv_cache"@, EntryView::Section(toml_kv_entries(c)))].push(
        ("models"@, EntryView::Section(seq![("default"@, ScalarView::Str(c.default_model))])),
    ).push(
        (
            "runtime"@,
            EntryView::Section(
                seq![("keep_alive"@, ScalarView::Str(nat_decimal(c.keep_alive.0 as nat) + "s"@))],
            ),
        ),
    ).push(
        (
            "scheduler"@,
            EntryView::Section(
                seq![("max_concurrency"@, ScalarView::Int(c.max_concurrency as i64))],
            ),
        ),
    ).push(("schema"@, EntryView::Scalar(ScalarView::Str("drakkar.config/1"@)))).push(
        ("server"@, EntryView::Section(toml_server_entries(c))),
    ).push(
        (
            "storage"@,
            EntryView::Section(
                seq![("import_hf_cache"@, ScalarView::Str(import_text(c.import_hf_cache)))].push(
                    ("path"@, ScalarView::Str(c.path)),
                ),
            ),
        ),
    ).push(("telemetry"@, EntryView::Scalar(ScalarView::Str("off"@))))
}

/// The flat `[kv_cache]` part of the map.
spec fn flat_kv(c: ConfigView) -> Seq<(Seq<char>, Seq<char>)> {
    let bits = seq![("kv_cache.bits"@, nat_decimal(c.bits as nat))];
    let head = match c.disk {
        Some(d) => bits.push(("kv_cache.disk"@, bool_text(d))),
        None => bits,
    };
    head.push(("kv_cache.disk_budget_gib"@, nat_decimal(c.disk_budget_gib as nat))).push(
        ("kv_cache.ttl_min"@, nat_decimal(c.ttl_min as nat)),
    )
}

/// The flat map that reading `toml_entries(c)` builds.
spec fn flat_map(c: ConfigView) -> Seq<(Seq<char>, Seq<char>)> {
    flat_kv(c).push(("models.default"@, c.default_model)).push(
        ("runtime.keep_alive"@, nat_decimal(c.keep_alive.0 as nat) + "s"@),
    ).push(("scheduler.max_concurrency"@, nat_decimal(c.max_concurrency as nat))).push(
        ("schema"@, "drakkar.config/1"@),
    ).push(("server.api_key"@, c.api_key)).push(
        ("server.hide_reasoning"@, bool_text(c.hide_reasoning)),
    ).push(("server.host"@, c.host)).push(("server.port"@, nat_decimal(c.port as nat))).push(
        ("server.responses_api"@, bool_text(c.responses_api)),
    ).push(("storage.import_hf_cache"@, import_text(c.import_hf_cache))).push(
        ("storage.path"@, c.path),
    ).push(("telemetry"@, "off"@))
}

broadcast proof fn lemma_alist_index_push(m: Seq<(Seq<char>, Seq<char>)>, x: (Seq<char>, Seq<char>), k: Seq<char>)
    ensures
        #[trigger] alist_index(m.push(x), k) == if x.0 == k {
            m.len() as int
        } else {
            alist_index(m, k)
        },
{
    assert(m.push(x).drop_last() =~= m);
}

broadcast proof fn lemma_flatten_push(es: Seq<(Seq<char>, EntryView)>, e: (Seq<char>, EntryView))
    ensures
        #[trigger] flatten(es.push(e)) == match flatten(es) {
            Err(x) => Err(x),
            Ok(m) => super::file::flatten_entry(m, e.0, e.1),
        },
{
    assert(es.push(e).drop_last() =~= es);
}

broadcast proof fn lemma_flatten_section_push(
    m: Seq<(Seq<char>, Seq<char>)>,
    section: Seq<char>,
    inner: Seq<(Seq<char>, ScalarView)>,
    p: (Seq<char>, ScalarView),
)
    ensures
        #[trigger] flatten_section(m, section, inner.push(p)) == match flatten_section(
            m,
            section,
            inner,
        ) {
            Err(x) => Err(x),
            Ok(m2) => match super::file::scalar_text(p.1) {
                Some(t) => Ok(alist_insert(m2, section + "."@ + p.0, t)),
                None => Err(super::file::not_scalar(section + "."@ + p.0)),
            },
        },
{
    assert(inner.push(p).drop_last() =~= inner);
}

proof fn lemma_reveal_keys()
    ensures
        "kv_cache"@ + "."@ + "bits"@ == "kv_cache.bits"@,
        "kv_cache"@ + "."@ + "disk"@ == "kv_cache.disk"@,
        "kv_cache"@ + "."@ + "disk_budget_gib"@ == "kv_cache.disk_budget_gib"@,
        "kv_cache"@ + "."@ + "ttl_min"@ == "kv_cache.ttl_min"@,
        "models"@ + "."@ + "default"@ == "models.default"@,
        "runtime"@ + "."@ + "keep_alive"@ == "runtime.keep_alive"@,
        "scheduler"@ + "."@ + "max_concurrency"@ == "scheduler.max_concurrency"@,
        "server"@ + "."@ + "api_key"@ == "server.api_key"@,
        "server"@ + "."@ + "hide_reasoning"@ == "server.hide_reasoning"@,
        "server"@ + "."@ + "host"@ == "server.host"@,
        "server"@ + "."@ + "port"@ == "server.port"@,
        "server"@ + "."@ + "responses_api"@ == "server.responses_api"@,
        "storage"@ + "."@ + "import_hf_cache"@ == "storage.import_hf_cache"@,
        "storage"@ + "."@ + "path"@ == "storage.path"@,
{
    reveal_strlit(".");
    reveal_strlit("kv_cache");
    reveal_strlit("bits");
    reveal_strlit("disk");
    reveal_strlit("disk_budget_gib");
    reveal_strlit("ttl_min");
    reveal_strlit("models");
    reveal_strlit("default");
    reveal_strlit("runtime");
    reveal_strlit("keep_alive");
    reveal_strlit("scheduler");
    reveal_strlit("max_concurrency");
    reveal_strlit("server");
    reveal_strlit("api_key");
    reveal_strlit("hide_reasoning");
    reveal_strlit("host");
    reveal_strlit("port");
    reveal_strlit("responses_api");
    reveal_strlit("storage");
    reveal_strlit("import_hf_cache");
    reveal_strlit("path");
    reveal_strlit("kv_cache.bits");
    reveal_strlit("kv_cache.disk");
    reveal_strlit("kv_cache.disk_budget_gib");
    reveal_strlit("kv_cache.ttl_min");
    reveal_strlit("models.default");
    reveal_strlit("runtime.keep_alive");
    reveal_strlit("scheduler.max_concurrency");
    reveal_strlit("server.api_key");
    reveal_strlit("server.hide_reasoning");
    reveal_strlit("server.host");
    reveal_strlit("server.port");
    reveal_strlit("server.responses_api");
    reveal_strlit("storage.import_hf_cache");
    reveal_strlit("storage.path");
    assert("kv_cache"@ + "."@ + "bits"@ =~= "kv_cache.bits"@);
    assert("kv_cache"@ + "."@ + "disk"@ =~= "kv_cache.disk"@);
    assert("kv_cache"@ + "."@ + "disk_budget_gib"@ =~= "kv_cache.disk_budget_gib"@);
    assert("kv_cache"@ + "."@ + "ttl_min"@ =~= "kv_cache.ttl_min"@);
    assert("models"@ + "."@ + "default"@ =~= "models.default"@);
    assert("runtime"@ + "."@ + "keep_alive"@ =~= "runtime.keep_alive"@);
    assert("scheduler"@ + "."@ + "max_concurrency"@ =~= "scheduler.max_concurrency"@);
    assert("server"@ + "."@ + "api_key"@ =~= "server.api_key"@);
    assert("server"@ + "."@ + "hide_reasoning"@ =~= "server.hide_reasoning"@);
    assert("server"@ + "."@ + "host"@ =~= "server.host"@);
    assert("server"@ + "."@ + "port"@ =~= "server.port"@);
    assert("server"@ + "."@ + "responses_api"@ =~= "server.responses_api"@);
    assert("storage"@ + "."@ + "import_hf_cache"@ =~= "storage.import_hf_cache"@);
    assert("storage"@ + "."@ + "path"@ =~= "storage.path"@);
}

/// The flat keys, with their lengths and the character that tells apart the
/// keys of equal length.
proof fn lemma_key_shapes()
    ensures
        "kv_cache.bits"@.len() == 13 && "kv_cache.bits"@[9] == 'b',
        "kv_cache.disk"@.len() == 13 && "kv_cache.disk"@[9] == 'd',
        "kv_cache.disk_budget_gib"@.len() == 24,
        "kv_cache.ttl_min"@.len() == 16,
        "models.default"@.len() == 14 && "models.default"@[9] == 'f',
        "runtime.keep_alive"@.len() == 18,
        "scheduler.max_concurrency"@.len() == 25,
        "schema"@.len() == 6,
        "server.api_key"@.len() == 14 && "server.api_key"@[9] == 'i',
        "server.hide_reasoning"@.len() == 21,
        "server.host"@.len() == 11 && "server.host"@[9] == 's',
        "server.port"@.len() == 11 && "server.port"@[9] == 'r',
        "server.responses_api"@.len() == 20,
        "storage.import_hf_cache"@.len() == 23,
        "storage.path"@.len() == 12,
        "telemetry"@.len() == 9,
{
    reveal_strlit("kv_cache.bits");
    reveal_strlit("kv_cache.disk");
    reveal_strlit("kv_cache.disk_budget_gib");
    reveal_strlit("kv_cache.ttl_min");
    reveal_strlit("models.default");
    reveal_strlit("runtime.keep_alive");
    reveal_strlit("scheduler.max_concurrency");
    reveal_strlit("schema");
    reveal_strlit("server.api_key");
    reveal_strlit("server.hide_reasoning");
    reveal_strlit("server.host");
    reveal_strlit("server.port");
    reveal_strlit("server.responses_api");
    reveal_strlit("storage.import_hf_cache");
    reveal_strlit("storage.path");
    reveal_strlit("telemetry");
}

proof fn lemma_int_text(n: nat)
    requires
        n <= i64::MAX,
    ensures
        int_decimal(n as i64 as int) == nat_decimal(n),
{
}

/// Flattening the `[kv_cache]` table.
#[verifier::rlimit(40)]
proof fn lemma_flatten_kv(c: ConfigView)
    ensures
        flatten(seq![("kv_cache"@, EntryView::Section(toml_kv_entries(c)))]) == Ok::<
            Seq<(Seq<char>, Seq<char>)>,
            DkErrorView,
        >(flat_kv(c)),
{
    broadcast use lemma_alist_index_push, lemma_flatten_push, lemma_flatten_section_push;

    lemma_reveal_keys();
    lemma_key_shapes();
    lemma_int_text(c.bits as nat);
    lemma_int_text(c.disk_budget_gib as nat);
    lemma_int_text(c.ttl_min as nat);
    let e: Seq<(Seq<char>, EntryView)> = Seq::empty();
    assert(flatten(e) == Ok::<Seq<(Seq<char>, Seq<char>)>, DkErrorView>(Seq::empty()));
    let m0: Seq<(Seq<char>, Seq<char>)> = Seq::empty();
    let sec = "kv_cache"@;
    assert(flatten_section(m0, sec, Seq::empty()) == Ok::<
        Seq<(Seq<char>, Seq<char>)>,
        DkErrorView,
    >(m0));
    let b = seq![("bits"@, ScalarView::Int(c.bits as i64))];
    let m1 = seq![("kv_cache.bits"@, nat_decimal(c.bits as nat))];
    assert(alist_index(m0, "kv_cache.bits"@) == -1);
    assert(flatten_section(m0, sec, b) == Ok::<Seq<(Seq<char>, Seq<char>)>, DkErrorView>(m1));
    let (h, m2) = match c.disk {
        Some(d) => (b.push(("disk"@, ScalarView::Bool(d))), m1.push(("kv_cache.disk"@, bool_text(d)))),
        None => (b, m1),
    };
    assert(alist_index(m1, "kv_cache.disk"@) == -1);
    assert(flatten_section(m0, sec, h) == Ok::<Seq<(Seq<char>, Seq<char>)>, DkErrorView>(m2));
    let h3 = h.push(("disk_budget_gib"@, ScalarView::Int(c.disk_budget_gib as i64)));
    let m3 = m2.push(("kv_cache.disk_budget_gib"@, nat_decimal(c.disk_budget_gib as nat)));
    assert(alist_index(m2, "kv_cache.disk_budget_gib"@) == -1);
    assert(flatten_section(m0, sec, h3) == Ok::<Seq<(Seq<char>, Seq<char>)>, DkErrorView>(m3));
    assert(alist_index(m3, "kv_cache.ttl_min"@) == -1);
}

proof fn lemma_fresh(m: Seq<(Seq<char>, Seq<char>)>, k: Seq<char>)
    requires
        forall|j: int| 0 <= j < m.len() ==> (#[trigger] m[j]).0 != k,
    ensures
        alist_index(m, k) == -1,
{
    super::file::lemma_alist_index_bounds(m, k);
}

/// Flattening the document gives the flat map.
#[verifier::rlimit(80)]
proof fn lemma_flatten_entries(c: ConfigView)
    ensures
        flatten(toml_entries(c)) == Ok::<Seq<(Seq<char>, Seq<char>)>, DkErrorView>(flat_map(c)),
{
    broadcast use lemma_alist_index_push, lemma_flatten_push, lemma_flatten_section_push;

    lemma_flatten_kv(c);
    lemma_reveal_keys();
    lemma_key_shapes();
    lemma_int_text(c.max_concurrency as nat);
    lemma_int_text(c.port as nat);
    reveal_strlit("true");
    reveal_strlit("false");
    let m1 = flat_kv(c);
    assert(forall|j: int|
        0 <= j < m1.len() ==> (#[trigger] m1[j]).0.len() == 13 || m1[j].0.len() == 24
            || m1[j].0.len() == 16);
    lemma_fresh(m1, "models.default"@);
    lemma_fresh(m1, "runtime.keep_alive"@);
    lemma_fresh(m1, "scheduler.max_concurrency"@);
    lemma_fresh(m1, "schema"@);
    lemma_fresh(m1, "server.api_key"@);
    lemma_fresh(m1, "server.hide_reasoning"@);
    lemma_fresh(m1, "server.host"@);
    lemma_fresh(m1, "server.port"@);
    lemma_fresh(m1, "server.responses_api"@);
    lemma_fresh(m1, "storage.import_hf_cache"@);
    lemma_fresh(m1, "storage.path"@);
    lemma_fresh(m1, "telemetry"@);
    let e1 = seq![("kv_cache"@, EntryView::Section(toml_kv_entries(c)))];
    let e2 = e1.push(
        ("models"@, EntryView::Section(seq![("default"@, ScalarView::Str(c.default_model))])),
    );
    let m2 = m1.push(("models.default"@, c.default_model));
    assert(flatten(e2) == Ok::<Seq<(Seq<char>, Seq<char>)>, DkErrorView>(m2));
    let keep = nat_decimal(c.keep_alive.0 as nat) + "s"@;
    let e3 = e2.push(
        ("runtime"@, EntryView::Section(seq![("keep_alive"@, ScalarView::Str(keep))])),
    );
    let m3 = m2.push(("runtime.keep_alive"@, keep));
    assert(flatten(e3) == Ok::<Seq<(Seq<char>, Seq<char>)>, DkErrorView>(m3));
    let e4 = e3.push(
        (
            "scheduler"@,
            EntryView::Section(
                seq![("max_concurrency"@, ScalarView::Int(c.max_concurrency as i64))],
            ),
        ),
    );
    let m4 = m3.push(("scheduler.max_concurrency"@, nat_decimal(c.max_concurrency as nat)));
    assert(flatten(e4) == Ok::<Seq<(Seq<char>, Seq<char>)>, DkErrorView>(m4));
    let e5 = e4.push(("schema"@, EntryView::Scalar(ScalarView::Str("drakkar.config/1"@))));
    let m5 = m4.push(("schema"@, "drakkar.config/1"@));
    assert(flatten(e5) == Ok::<Seq<(Seq<char>, Seq<char>)>, DkErrorView>(m5));
    let e6 = e5.push(("server"@, EntryView::Section(toml_server_entries(c))));
    let m6 = m5.push(("server.api_key"@, c.api_key)).push(
        ("server.hide_reasoning"@, bool_text(c.hide_reasoning)),
    ).push(("server.host"@, c.host)).push(("server.port"@, nat_decimal(c.port as nat))).push(
        ("server.responses_api"@, bool_text(c.responses_api)),
    );
    assert(flatten(e6) == Ok::<Seq<(Seq<char>, Seq<char>)>, DkErrorView>(m6));
    let e7 = e6.push(
        (
            "storage"@,
            EntryView::Section(
                seq![("import_hf_cache"@, ScalarView::Str(import_text(c.import_hf_cache)))].push(
                    ("path"@, ScalarView::Str(c.path)),
                ),
            ),
        ),
    );
    let m7 = m6.push(("storage.import_hf_cache"@, import_text(c.import_hf_cache))).push(
        ("storage.path"@, c.path),
    );
    assert(flatten(e7) == Ok::<Seq<(Seq<char>, Seq<char>)>, DkErrorView>(m7));
    let e8 = e7.push(("telemetry"@, EntryView::Scalar(ScalarView::Str("off"@))));
    assert(toml_entries(c) == e8);
    assert(flat_map(c) == m7.push(("telemetry"@, "off"@)));
}

/// Where each key sits in the flat map, and what it holds.
#[verifier::rlimit(40)]
proof fn lemma_flat_get(c: ConfigView)
    ensures
        alist_get(flat_map(c), "kv_cache.bits"@) == Some(nat_decimal(c.bits as nat)),
        alist_get(flat_map(c), "kv_cache.disk"@) == match c.disk {
            Some(d) => Some(bool_text(d)),
            None => None::<Seq<char>>,
        },
        alist_get(flat_map(c), "kv_cache.disk_budget_gib"@) == Some(
            nat_decimal(c.disk_budget_gib as nat),
        ),
        alist_get(flat_map(c), "kv_cache.ttl_min"@) == Some(nat_decimal(c.ttl_min as nat)),
        alist_get(flat_map(c), "models.default"@) == Some(c.default_model),
        alist_get(flat_map(c), "runtime.keep_alive"@) == Some(
            nat_decimal(c.keep_alive.0 as nat) + "s"@,
        ),
        alist_get(flat_map(c), "scheduler.max_concurrency"@) == Some(
            nat_decimal(c.max_concurrency as nat),
        ),
        alist_get(flat_map(c), "schema"@) == Some("drakkar.config/1"@),
        alist_get(flat_map(c), "server.api_key"@) == Some(c.api_key),
        alist_get(flat_map(c), "server.hide_reasoning"@) == Some(bool_text(c.hide_reasoning)),
        alist_get(flat_map(c), "server.host"@) == Some(c.host),
        alist_get(flat_map(c), "server.port"@) == Some(nat_decimal(c.port as nat)),
        alist_get(flat_map(c), "server.responses_api"@) == Some(bool_text(c.responses_api)),
        alist_get(flat_map(c), "storage.import_hf_cache"@) == Some(import_text(c.import_hf_cache)),
        alist_get(flat_map(c), "storage.path"@) == Some(c.path),
        alist_get(flat_map(c), "telemetry"@) == Some("off"@),
{
    broadcast use lemma_alist_index_push;

    lemma_key_shapes();
    let m1 = flat_kv(c);
    let bits = seq![("kv_cache.bits"@, nat_decimal(c.bits as nat))];
    let e: Seq<(Seq<char>, Seq<char>)> = Seq::empty();
    assert(bits == e.push(("kv_cache.bits"@, nat_decimal(c.bits as nat))));
    assert(alist_index(e, "kv_cache.disk"@) == -1);
    assert(alist_index(e, "kv_cache.bits"@) == -1);
    assert(alist_index(e, "kv_cache.disk_budget_gib"@) == -1);
    assert(alist_index(e, "kv_cache.ttl_min"@) == -1);
    assert(forall|j: int|
        0 <= j < m1.len() ==> (#[trigger] m1[j]).0.len() == 13 || m1[j].0.len() == 24
            || m1[j].0.len() == 16);
    lemma_fresh(m1, "models.default"@);
    lemma_fresh(m1, "runtime.keep_alive"@);
    lemma_fresh(m1, "scheduler.max_concurrency"@);
    lemma_fresh(m1, "schema"@);
    lemma_fresh(m1, "server.api_key"@);
    lemma_fresh(m1, "server.hide_reasoning"@);
    lemma_fresh(m1, "server.host"@);
    lemma_fresh(m1, "server.port"@);
    lemma_fresh(m1, "server.responses_api"@);
    lemma_fresh(m1, "storage.import_hf_cache"@);
    lemma_fresh(m1, "storage.path"@);
    lemma_fresh(m1, "telemetry"@);
    match c.disk {
        Some(d) => {
            assert(m1[0] == ("kv_cache.bits"@, nat_decimal(c.bits as nat)));
        },
        None => {},
    }
}

/// A decimal rendering parses back, as any unsigned type wide enough.
proof fn lemma_parse_decimal(n: nat, max: nat)
    requires
        n <= max,
    ensures
        parse_unsigned(nat_decimal(n), max) == Some(n),
{
    lemma_nat_decimal_digits(n);
}

proof fn lemma_first_non_digit_run(t: Seq<char>, d: Seq<char>, i: int)
    requires
        t == d + "s"@,
        crate::text::all_digits(d),
        0 <= i <= d.len(),
        "s"@ == seq!['s'],
    ensures
        first_non_digit(t, i) == d.len(),
    decreases d.len() - i,
{
    if i < d.len() {
        assert(t[i] == d[i]);
        lemma_first_non_digit_run(t, d, i + 1);
    } else {
        assert(t[i] == 's');
    }
}

/// A whole number of seconds written as `<n>s` reads back as that many
/// seconds.
proof fn lemma_seconds_text(n: u64)
    ensures
        duration_of(trimmed(nat_decimal(n as nat) + "s"@)) == Some((n, 0u32)),
{
    reveal_strlit("s");
    reveal_strlit("ms");
    let d = nat_decimal(n as nat);
    let t = d + "s"@;
    lemma_nat_decimal_digits(n as nat);
    assert(crate::text::is_digit(t[0]));
    assert(crate::text::leading_ws(t) == 0);
    assert(t.subrange(0, t.len() as int) =~= t);
    assert(t.last() == 's');
    assert(crate::text::trailing_ws(t) == 0);
    assert(trimmed(t) =~= t);
    assert("s"@ =~= seq!['s']);
    lemma_first_non_digit_run(t, d, 0);
    assert(t.subrange(0, d.len() as int) =~= d);
    assert(t.subrange(d.len() as int, t.len() as int) =~= "s"@);
    lemma_parse_decimal(n as nat, u64::MAX as nat);
}

/// Reading back a configuration's own file, with nothing else set, gives each
/// setting its value, and every value read is valid on its own.
#[verifier::rlimit(60)]
proof fn lemma_setting_reads_back(c: ConfigView, st: Setting)
    requires
        c.port >= 1,
        c.bits == 4 || c.bits == 8 || c.bits == 16,
        c.max_concurrency >= 1,
        c.keep_alive.1 == 0,
    ensures
        ({
            let s = SourcesView::Layers {
                flags: Map::empty(),
                env: Map::empty(),
                file: flat_map(c),
            };
            &&& source_get(s, setting_key(st)) matches Some(v) ==> set_spec(default_view(), st, v) is Ok
            &&& super::precedence::layered_field(s, st) == field_of(c, st)
        }),
{
    lemma_flat_get(c);
    reveal_strlit("true");
    reveal_strlit("false");
    reveal_strlit("clone");
    reveal_strlit("copy");
    reveal_strlit("off");
    match st {
        Setting::Port => lemma_parse_decimal(c.port as nat, u32::MAX as nat),
        Setting::KvBits => lemma_parse_decimal(c.bits as nat, 255),
        Setting::KvDiskBudget => lemma_parse_decimal(c.disk_budget_gib as nat, u32::MAX as nat),
        Setting::KvTtl => lemma_parse_decimal(c.ttl_min as nat, u32::MAX as nat),
        Setting::MaxConcurrency => lemma_parse_decimal(c.max_concurrency as nat, u32::MAX as nat),
        Setting::KeepAlive => lemma_seconds_text(c.keep_alive.0),
        Setting::Telemetry => {
            assert(c.telemetry == Telemetry::Off);
        },
        _ => {},
    }
}

/// Two configurations that agree on every setting are equal.
proof fn lemma_fields_determine(a: ConfigView, b: ConfigView)
    requires
        forall|st: Setting| field_of(a, st) == #[trigger] field_of(b, st),
    ensures
        a == b,
{
    assert(field_of(a, Setting::Host) == field_of(b, Setting::Host));
    assert(field_of(a, Setting::Port) == field_of(b, Setting::Port));
    assert(field_of(a, Setting::ApiKey) == field_of(b, Setting::ApiKey));
    assert(field_of(a, Setting::HideReasoning) == field_of(b, Setting::HideReasoning));
    assert(field_of(a, Setting::ResponsesApi) == field_of(b, Setting::ResponsesApi));
    assert(field_of(a, Setting::ModelsDefault) == field_of(b, Setting::ModelsDefault));
    assert(field_of(a, Setting::StoragePath) == field_of(b, Setting::StoragePath));
    assert(field_of(a, Setting::ImportHfCache) == field_of(b, Setting::ImportHfCache));
    assert(field_of(a, Setting::KvDisk) == field_of(b, Setting::KvDisk));
    assert(field_of(a, Setting::KvBits) == field_of(b, Setting::KvBits));
    assert(field_of(a, Setting::KvDiskBudget) == field_of(b, Setting::KvDiskBudget));
    assert(field_of(a, Setting::KvTtl) == field_of(b, Setting::KvTtl));
    assert(field_of(a, Setting::KeepAlive) == field_of(b, Setting::KeepAlive));
    assert(field_of(a, Setting::MaxConcurrency) == field_of(b, Setting::MaxConcurrency));
    assert(field_of(a, Setting::Telemetry) == field_of(b, Setting::Telemetry));
}

proof fn lemma_none_unknown(keys: Seq<Seq<char>>)
    requires
        forall|i: int| 0 <= i < keys.len() ==> known_key(#[trigger] keys[i]),
    ensures
        least_unknown(keys) is None,
    decreases keys.len(),
{
    if keys.len() > 0 {
        assert(known_key(keys[keys.len() - 1]));
        lemma_none_unknown(keys.drop_last());
    }
}

/// Every key of the flat map is a known key, and the schema tag passes.
proof fn lemma_flat_map_checks(c: ConfigView)
    ensures
        schema_gate(flat_map(c)) is None,
        least_unknown(alist_keys(flat_map(c))) is None,
{
    lemma_flat_get(c);
    reveal_strlit("drakkar.config/1");
    reveal_strlit("drakkar.");
    reveal_strlit("config");
    assert(nat_decimal(1) == seq!['1']);
    assert("drakkar.config/1"@ =~= schema_tag_text("config"@, 1));
    lemma_schema_tag_round_trip("config"@, 1);
    let m = flat_map(c);
    let keys = alist_keys(m);
    assert forall|i: int| 0 <= i < keys.len() implies known_key(#[trigger] keys[i]) by {
        assert(keys[i] == m[i].0);
    }
    lemma_none_unknown(keys);
}

/// Whether a string is written into a TOML basic string as it stands and
/// read back unchanged: no `"`, no `\`, and no control character but tab.
pub open spec fn plain_text(s: Seq<char>) -> bool {
    forall|i: int|
        0 <= i < s.len() ==> #[trigger] s[i] != '"' && s[i] != '\\' && s[i] != '\u{7f}' && (s[i]
            >= ' ' || s[i] == '\t')
}

/// Whether every string setting of `c` is plain.
pub open spec fn plain_strings(c: ConfigView) -> bool {
    plain_text(c.host) && plain_text(c.api_key) && plain_text(c.default_model) && plain_text(c.path)
}

/// Reading back the file that `to_toml` writes gives the configuration that
/// was written, over the entries `toml_entries(c)` models the file as: they
/// flatten without error, pass the schema and key checks, and resolving them
/// with no flags and no environment yields `c` again. A port of 0, a bit
/// width other than 4, 8 or 16, a concurrency of 0 or a keep-alive with a
/// fraction of a second is written as it stands but not read back as the
/// same value; a string holding a quote, a backslash or a control character
/// is written unescaped and does not read back either.
pub proof fn lemma_to_toml_round_trip(c: ConfigView)
    requires
        plain_strings(c),
        c.port >= 1,
        c.bits == 4 || c.bits == 8 || c.bits == 16,
        c.max_concurrency >= 1,
        c.keep_alive.1 == 0,
    ensures
        file_map_spec(Ok(toml_entries(c))) matches Ok(m) && resolve_sources(
            SourcesView::Layers { flags: Map::empty(), env: Map::empty(), file: m },
        ) == Ok::<ConfigView, DkErrorView>(c),
{
    lemma_flatten_entries(c);
    lemma_flat_map_checks(c);
    let m = flat_map(c);
    assert(file_map_spec(Ok(toml_entries(c))) == Ok::<Seq<(Seq<char>, Seq<char>)>, DkErrorView>(m));
    let s = SourcesView::Layers { flags: Map::empty(), env: Map::empty(), file: m };
    assert forall|st: Setting| #[trigger]
        source_get(s, setting_key(st)) matches Some(v) ==> set_spec(default_view(), st, v) is Ok by {
        lemma_setting_reads_back(c, st);
    }
    lemma_resolution_succeeds(s);
    let r = resolve_sources(s)->Ok_0;
    assert forall|st: Setting| field_of(r, st) == #[trigger] field_of(c, st) by {
        lemma_setting_reads_back(c, st);
        lemma_resolved_setting_is_highest_layer(s, st);
    }
    lemma_fields_determine(r, c);
}

/// Distinct settings have distinct keys.
proof fn lemma_setting_key_injective(a: Setting, b: Setting)
    requires
        a != b,
    ensures
        setting_key(a) != setting_key(b),
{
    lemma_key_shapes();
}

/// Every resolved configuration meets the conditions under which its file
/// reads back: a port of at least 1, a bit width of 4, 8 or 16, and a
/// concurrency of at least 1.
pub proof fn lemma_resolved_config_is_valid(s: SourcesView)
    requires
        resolve_sources(s) is Ok,
    ensures
        ({
            let c = resolve_sources(s)->Ok_0;
            &&& c.port >= 1
            &&& c.bits == 4 || c.bits == 8 || c.bits == 16
            &&& c.max_concurrency >= 1
        }),
{
    lemma_resolved_setting_is_highest_layer(s, Setting::Port);
    lemma_resolved_setting_is_highest_layer(s, Setting::KvBits);
    lemma_resolved_setting_is_highest_layer(s, Setting::MaxConcurrency);
}

/// `config set key value` writes the configuration in which `key` holds the
/// value and every other setting holds what the existing file resolved it
/// to; when its keep-alive is a whole number of seconds and its strings are
/// plain, the entries `toml_entries` models that file as read back as the
/// same configuration.
pub proof fn lemma_set_then_read_back(
    existing: Option<Seq<char>>,
    st: Setting,
    value: Seq<char>,
)
    requires
        set_text_spec(existing, setting_key(st), value) is Ok,
        resolve_spec(existing, Map::empty(), Map::empty()) is Ok,
    ensures
        exists|c: ConfigView|
            #![trigger toml_text(c)]
            {
                &&& set_text_spec(existing, setting_key(st), value) == Ok::<Seq<char>, DkErrorView>(
                    toml_text(c),
                )
                &&& field_of(c, st) == field_of(set_spec(default_view(), st, value)->Ok_0, st)
                &&& forall|other: Setting|
                    other != st ==> #[trigger] field_of(c, other) == field_of(
                        resolve_spec(existing, Map::empty(), Map::empty())->Ok_0,
                        other,
                    )
                &&& c.keep_alive.1 == 0 && plain_strings(c) ==> (file_map_spec(Ok(toml_entries(c))) matches Ok(m)
                    && resolve_sources(
                    SourcesView::Layers { flags: Map::empty(), env: Map::empty(), file: m },
                ) == Ok::<ConfigView, DkErrorView>(c))
            },
{
    let key = setting_key(st);
    let flags = Map::<Seq<char>, Seq<char>>::empty().insert(key, value);
    let env = Map::<Seq<char>, Seq<char>>::empty();
    let m = match existing {
        None => Seq::<(Seq<char>, Seq<char>)>::empty(),
        Some(t) => file_map_spec(toml_document(t))->Ok_0,
    };
    let s1 = SourcesView::Layers { flags, env, file: m };
    let s0 = SourcesView::Layers { flags: env, env, file: m };
    let c = resolve_sources(s1)->Ok_0;
    assert(resolve_spec(existing, env, flags) == resolve_sources(s1));
    assert(resolve_spec(existing, env, env) == resolve_sources(s0));
    super::precedence::lemma_set_writes_the_value(existing, st, value);
    assert forall|other: Setting| other != st implies #[trigger] field_of(c, other) == field_of(
        resolve_sources(s0)->Ok_0,
        other,
    ) by {
        lemma_setting_key_injective(other, st);
        lemma_resolved_setting_is_highest_layer(s1, other);
        lemma_resolved_setting_is_highest_layer(s0, other);
        assert(source_get(s1, setting_key(other)) == source_get(s0, setting_key(other)));
    }
    super::precedence::lemma_flag_then_env_then_file(flags, env, m, st);
    lemma_resolved_config_is_valid(s1);
    if c.keep_alive.1 == 0 && plain_strings(c) {
        lemma_to_toml_round_trip(c);
    }
    assert(set_text_spec(existing, key, value) == Ok::<Seq<char>, DkErrorView>(toml_text(c)));
}

} // verus!
