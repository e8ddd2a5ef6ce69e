//! What resolution makes of each setting: the value of the highest layer that
//! holds the key, read on its own, or the default when no layer holds it.

use vstd::prelude::*;

use super::file::{file_map_spec, toml_document};
use super::resolve::{SourcesView, resolve_sources, resolve_spec, resolve_steps, set_text_spec, source_get};
use super::settings::{Setting, set_spec, setting_key, setting_order};
use super::{ConfigView, ImportHfCache, Telemetry, default_view, toml_text};
use crate::error::DkErrorView;

verus! {

/// The value one setting holds in a configuration.
pub enum FieldValue {
    /// A text setting.
    Text(Seq<char>),
    /// The port.
    Port(u16),
    /// A boolean setting.
    Flag(bool),
    /// The optional disk-cache switch.
    Disk(Option<bool>),
    /// The Hugging Face cache import policy.
    Import(ImportHfCache),
    /// The KV precision in bits.
    Bits(u8),
    /// A count setting.
    Count(u32),
    /// The keep-alive, as whole seconds and nanoseconds.
    Span((u64, u32)),
    /// The telemetry mode.
    Telem(Telemetry),
}

/// The value setting `s` holds in `c`.
pub open spec fn field_of(c: ConfigView, s: Setting) -> FieldValue {
    match s {
        Setting::Host => FieldValue::Text(c.host),
        Setting::Port => FieldValue::Port(c.port),
        Setting::ApiKey => FieldValue::Text(c.api_key),
        Setting::HideReasoning => FieldValue::Flag(c.hide_reasoning),
        Setting::ResponsesApi => FieldValue::Flag(c.responses_api),
        Setting::ModelsDefault => FieldValue::Text(c.default_model),
        Setting::StoragePath => FieldValue::Text(c.path),
        Setting::ImportHfCache => FieldValue::Import(c.import_hf_cache),
        Setting::KvDisk => FieldValue::Disk(c.disk),
        Setting::KvBits => FieldValue::Bits(c.bits),
        Setting::KvDiskBudget => FieldValue::Count(c.disk_budget_gib),
        Setting::KvTtl => FieldValue::Count(c.ttl_min),
        Setting::KeepAlive => FieldValue::Span(c.keep_alive),
        Setting::MaxConcurrency => FieldValue::Count(c.max_concurrency),
        Setting::Telemetry => FieldValue::Telem(c.telemetry),
    }
}

/// The position of a setting in the resolver's order.
pub open spec fn setting_index(s: Setting) -> int {
    match s {
        Setting::Host => 0,
        Setting::Port => 1,
        Setting::ApiKey => 2,
        Setting::HideReasoning => 3,
        Setting::ResponsesApi => 4,
        Setting::ModelsDefault => 5,
        Setting::StoragePath => 6,
        Setting::ImportHfCache => 7,
        Setting::KvDisk => 8,
        Setting::KvBits => 9,
        Setting::KvDiskBudget => 10,
        Setting::KvTtl => 11,
        Setting::KeepAlive => 12,
        Setting::MaxConcurrency => 13,
        Setting::Telemetry => 14,
    }
}

/// What setting `st` resolves to from sources `s`: the value of the highest
/// layer that holds its key, read on its own, or the default.
pub open spec fn layered_field(s: SourcesView, st: Setting) -> FieldValue {
    match source_get(s, setting_key(st)) {
        None => field_of(default_view(), st),
        Some(v) => match set_spec(default_view(), st, v) {
            Ok(d) => field_of(d, st),
            Err(_) => field_of(default_view(), st),
        },
    }
}

proof fn lemma_order_index(st: Setting)
    ensures
        0 <= setting_index(st) < 15,
        setting_order()[setting_index(st)] == st,
{
}

proof fn lemma_index_of_order(i: int)
    requires
        0 <= i < 15,
    ensures
        setting_index(setting_order()[i]) == i,
{
}

/// Writing one setting touches that setting alone, and what it writes, and
/// whether it fails, do not depend on the configuration written into.
proof fn lemma_set_is_local(c: ConfigView, st: Setting, v: Seq<char>, other: Setting)
    ensures
        set_spec(c, st, v) is Ok <==> set_spec(default_view(), st, v) is Ok,
        set_spec(c, st, v) matches Ok(c2) ==> field_of(c2, st) == field_of(
            set_spec(default_view(), st, v)->Ok_0,
            st,
        ),
        set_spec(c, st, v) matches Ok(c2) ==> (other != st ==> field_of(c2, other) == field_of(
            c,
            other,
        )),
{
}

proof fn lemma_steps_fields(s: SourcesView, n: nat, st: Setting)
    requires
        n <= 15,
        resolve_steps(s, n) is Ok,
    ensures
        field_of(resolve_steps(s, n)->Ok_0, st) == if setting_index(st) < n {
            layered_field(s, st)
        } else {
            field_of(default_view(), st)
        },
    decreases n,
{
    if n > 0 {
        let prev = resolve_steps(s, (n - 1) as nat);
        assert(prev is Ok);
        let c = prev->Ok_0;
        let cur = setting_order()[n - 1];
        lemma_index_of_order(n - 1);
        lemma_order_index(st);
        lemma_steps_fields(s, (n - 1) as nat, st);
        match source_get(s, setting_key(cur)) {
            None => {},
            Some(v) => {
                lemma_set_is_local(c, cur, v, st);
            },
        }
    }
}

/// Resolution succeeds whenever every value the sources hold for a setting is
/// valid for that setting on its own.
pub proof fn lemma_resolution_succeeds(s: SourcesView)
    requires
        forall|st: Setting| #[trigger]
            source_get(s, setting_key(st)) matches Some(v) ==> set_spec(default_view(), st, v) is Ok,
    ensures
        resolve_sources(s) is Ok,
{
    lemma_steps_ok(s, 15);
}

proof fn lemma_steps_ok(s: SourcesView, n: nat)
    requires
        n <= 15,
        forall|st: Setting| #[trigger]
            source_get(s, setting_key(st)) matches Some(v) ==> set_spec(default_view(), st, v) is Ok,
    ensures
        resolve_steps(s, n) is Ok,
    decreases n,
{
    if n > 0 {
        lemma_steps_ok(s, (n - 1) as nat);
        let c = resolve_steps(s, (n - 1) as nat)->Ok_0;
        let cur = setting_order()[n - 1];
        match source_get(s, setting_key(cur)) {
            None => {},
            Some(v) => {
                lemma_set_is_local(c, cur, v, cur);
            },
        }
    }
}

/// Every setting of a successful resolution holds the value of the highest
/// layer that has its key (flags over `DRAKKAR_*` variables over the file),
/// read on its own, and the built-in default when no layer has it.
pub proof fn lemma_resolved_setting_is_highest_layer(s: SourcesView, st: Setting)
    requires
        resolve_sources(s) is Ok,
    ensures
        field_of(resolve_sources(s)->Ok_0, st) == layered_field(s, st),
{
    lemma_order_index(st);
    lemma_steps_fields(s, 15, st);
}

/// With layered sources, a flag for a key decides it whatever the environment
/// and the file say; without a flag, the `DRAKKAR_*` variable decides it
/// whatever the file says.
pub proof fn lemma_flag_then_env_then_file(
    flags: Map<Seq<char>, Seq<char>>,
    env: Map<Seq<char>, Seq<char>>,
    file: Seq<(Seq<char>, Seq<char>)>,
    st: Setting,
)
    requires
        resolve_sources(SourcesView::Layers { flags, env, file }) is Ok,
    ensures
        flags.contains_key(setting_key(st)) ==> field_of(
            resolve_sources(SourcesView::Layers { flags, env, file })->Ok_0,
            st,
        ) == field_of(set_spec(default_view(), st, flags[setting_key(st)])->Ok_0, st),
        !flags.contains_key(setting_key(st)) && env.contains_key(
            super::resolve::env_var(setting_key(st)),
        ) ==> field_of(resolve_sources(SourcesView::Layers { flags, env, file })->Ok_0, st)
            == field_of(
            set_spec(default_view(), st, env[super::resolve::env_var(setting_key(st))])->Ok_0,
            st,
        ),
{
    let s = SourcesView::Layers { flags, env, file };
    lemma_order_index(st);
    lemma_steps_fields(s, 15, st);
    // The highest layer's value was written successfully, so it is valid on
    // its own.
    match source_get(s, setting_key(st)) {
        None => {},
        Some(v) => {
            lemma_written_value_is_valid(s, 15, st);
        },
    }
}

proof fn lemma_written_value_is_valid(s: SourcesView, n: nat, st: Setting)
    requires
        n <= 15,
        resolve_steps(s, n) is Ok,
        setting_index(st) < n,
    ensures
        source_get(s, setting_key(st)) matches Some(v) ==> set_spec(default_view(), st, v) is Ok,
    decreases n,
{
    if n > 0 {
        let c = resolve_steps(s, (n - 1) as nat)->Ok_0;
        let cur = setting_order()[n - 1];
        lemma_index_of_order(n - 1);
        lemma_order_index(st);
        if setting_index(st) < n - 1 {
            lemma_written_value_is_valid(s, (n - 1) as nat, st);
        } else {
            match source_get(s, setting_key(cur)) {
                None => {},
                Some(v) => {
                    lemma_set_is_local(c, cur, v, st);
                },
            }
        }
    }
}

/// `config set` writes the whole configuration back out, with the setting it
/// was given holding exactly the value it was given.
pub proof fn lemma_set_writes_the_value(existing: Option<Seq<char>>, st: Setting, value: Seq<char>)
    requires
        set_text_spec(existing, setting_key(st), value) is Ok,
    ensures
        exists|c: ConfigView|
            set_text_spec(existing, setting_key(st), value) == Ok::<Seq<char>, DkErrorView>(toml_text(c))
                && field_of(c, st) == field_of(set_spec(default_view(), st, value)->Ok_0, st),
{
    let flags = Map::<Seq<char>, Seq<char>>::empty().insert(setting_key(st), value);
    let env = Map::<Seq<char>, Seq<char>>::empty();
    let m = match existing {
        None => Seq::<(Seq<char>, Seq<char>)>::empty(),
        Some(t) => file_map_spec(toml_document(t))->Ok_0,
    };
    let c = resolve_spec(existing, env, flags)->Ok_0;
    assert(resolve_sources(SourcesView::Layers { flags, env, file: m }) == Ok::<ConfigView, DkErrorView>(c));
    lemma_flag_then_env_then_file(flags, env, m, st);
}

} // verus!
