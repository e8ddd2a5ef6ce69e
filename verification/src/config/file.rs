//! Reading `config.toml`: the parsed document is flattened into a
//! `section.key -> text` map, the schema major is gated, and any key outside
//! the normative set is rejected (the lexicographically least one is named).

use toml::{Table, Value};
use vstd::prelude::*;

use super::{invalid_key, invalid_key_view, invalid_value, invalid_value_view};
use crate::error::{DkError, DkErrorView};
use crate::ids::{SchemaTag, schema_tag_parse};
use crate::text::{chars_of, int_decimal, nat_decimal, push_char, push_i64, push_str, push_u64, str_eq};

verus! {

/// A scalar read from a TOML document, or the marker for a table, array or
/// datetime. A float carries its decimal rendering.
pub enum TomlScalar {
    /// A string.
    Str(String),
    /// An integer.
    Int(i64),
    /// A boolean.
    Bool(bool),
    /// A float, as rendered by `f64`'s `Display`.
    Float(String),
    /// A table, an array or a datetime.
    Other,
}

/// One top-level entry of a TOML document: a bare value or a `[section]`
/// table of values.
pub enum TomlEntry {
    /// A top-level `key = value`.
    Scalar(TomlScalar),
    /// A `[section]` with its entries, in document-map order.
    Section(Vec<(String, TomlScalar)>),
}

/// The mathematical value of a [`TomlScalar`].
pub enum ScalarView {
    /// A string.
    Str(Seq<char>),
    /// An integer.
    Int(i64),
    /// A boolean.
    Bool(bool),
    /// A float's rendering.
    Float(Seq<char>),
    /// A table, an array or a datetime.
    Other,
}

/// The mathematical value of a [`TomlEntry`].
pub enum EntryView {
    /// A top-level value.
    Scalar(ScalarView),
    /// A section's entries.
    Section(Seq<(Seq<char>, ScalarView)>),
}

impl View for TomlScalar {
    type V = ScalarView;

    open spec fn view(&self) -> ScalarView {
        match self {
            TomlScalar::Str(s) => ScalarView::Str(s@),
            TomlScalar::Int(i) => ScalarView::Int(*i),
            TomlScalar::Bool(b) => ScalarView::Bool(*b),
            TomlScalar::Float(t) => ScalarView::Float(t@),
            TomlScalar::Other => ScalarView::Other,
        }
    }
}

/// The view of a section's entries.
pub open spec fn section_view(v: Seq<(String, TomlScalar)>) -> Seq<(Seq<char>, ScalarView)> {
    v.map_values(|p: (String, TomlScalar)| (p.0@, p.1@))
}

impl View for TomlEntry {
    type V = EntryView;

    open spec fn view(&self) -> EntryView {
        match self {
            TomlEntry::Scalar(s) => EntryView::Scalar(s@),
            TomlEntry::Section(v) => EntryView::Section(section_view(v@)),
        }
    }
}

/// The view of a parsed document, or of the parser's error message.
pub open spec fn document_view(d: Result<Vec<(String, TomlEntry)>, String>) -> Result<
    Seq<(Seq<char>, EntryView)>,
    Seq<char>,
> {
    match d {
        Ok(v) => Ok(v@.map_values(|p: (String, TomlEntry)| (p.0@, p.1@))),
        Err(m) => Err(m@),
    }
}

/// What the `toml` crate's parser makes of a text as a table: its top-level
/// entries in the order its map iterates them, or its error message.
pub uninterp spec fn toml_document(text: Seq<char>) -> Result<
    Seq<(Seq<char>, EntryView)>,
    Seq<char>,
>;

/// Parses `text` with `toml::from_str` into a `toml::Table` and lists its
/// entries in the table's iteration order, each value moved into the
/// library's own types (a float as its `Display` text). The contract only
/// names the outcome: the parse is the `toml` crate's.
#[verifier::external_body]
fn parse_toml_document(text: &str) -> (r: Result<Vec<(String, TomlEntry)>, String>)
    ensures
        document_view(r) == toml_document(text@),
{
    let scalar = |v: Value| match v {
        Value::String(s) => TomlScalar::Str(s),
        Value::Integer(i) => TomlScalar::Int(i),
        Value::Boolean(b) => TomlScalar::Bool(b),
        Value::Float(f) => TomlScalar::Float(f.to_string()),
        _ => TomlScalar::Other,
    };
    let table: Table = toml::from_str(text).map_err(|e| e.to_string())?;
    Ok(table.into_iter().map(|(k, v)| (k, match v {
        Value::Table(t) => TomlEntry::Section(t.into_iter().map(|(j, w)| (j, scalar(w))).collect()),
        other => TomlEntry::Scalar(scalar(other)),
    })).collect())
}

/// The index of the entry holding key `k`, or `-1`.
pub open spec fn alist_index(m: Seq<(Seq<char>, Seq<char>)>, k: Seq<char>) -> int
    decreases m.len(),
{
    if m.len() == 0 {
        -1
    } else if m.last().0 == k {
        m.len() - 1
    } else {
        alist_index(m.drop_last(), k)
    }
}

/// The map after binding `k` to `v`: an existing key keeps its place.
pub open spec fn alist_insert(m: Seq<(Seq<char>, Seq<char>)>, k: Seq<char>, v: Seq<char>) -> Seq<
    (Seq<char>, Seq<char>),
> {
    let i = alist_index(m, k);
    if i >= 0 {
        m.update(i, (k, v))
    } else {
        m.push((k, v))
    }
}

/// The value bound to `k`, if any.
pub open spec fn alist_get(m: Seq<(Seq<char>, Seq<char>)>, k: Seq<char>) -> Option<Seq<char>> {
    let i = alist_index(m, k);
    if i >= 0 {
        Some(m[i].1)
    } else {
        None
    }
}

pub(crate) proof fn lemma_alist_index_bounds(m: Seq<(Seq<char>, Seq<char>)>, k: Seq<char>)
    ensures
        -1 <= alist_index(m, k) < m.len(),
        alist_index(m, k) >= 0 ==> m[alist_index(m, k)].0 == k,
        alist_index(m, k) < 0 ==> forall|j: int| 0 <= j < m.len() ==> m[j].0 != k,
    decreases m.len(),
{
    if m.len() > 0 && m.last().0 != k {
        lemma_alist_index_bounds(m.drop_last(), k);
        assert forall|j: int| 0 <= j < m.len() - 1 implies m.drop_last()[j] == m[j] by {}
    }
}

/// The text a scalar contributes to the flat map; `None` for a table, array
/// or datetime.
pub open spec fn scalar_text(v: ScalarView) -> Option<Seq<char>> {
    match v {
        ScalarView::Str(s) => Some(s),
        ScalarView::Int(i) => Some(int_decimal(i as int)),
        ScalarView::Bool(b) => Some(
            if b {
                "true"@
            } else {
                "false"@
            },
        ),
        ScalarView::Float(t) => Some(t),
        ScalarView::Other => None,
    }
}

/// The error for a non-scalar value under `key`.
pub open spec fn not_scalar(key: Seq<char>) -> DkErrorView {
    invalid_value_view(key, "table/array"@, "a scalar value"@)
}

/// Adds a section's entries (as `section.key`) to `m`, in order.
pub open spec fn flatten_section(
    m: Seq<(Seq<char>, Seq<char>)>,
    section: Seq<char>,
    inner: Seq<(Seq<char>, ScalarView)>,
) -> Result<Seq<(Seq<char>, Seq<char>)>, DkErrorView>
    decreases inner.len(),
{
    if inner.len() == 0 {
        Ok(m)
    } else {
        match flatten_section(m, section, inner.drop_last()) {
            Err(e) => Err(e),
            Ok(m2) => {
                let key = section + "."@ + inner.last().0;
                match scalar_text(inner.last().1) {
                    Some(t) => Ok(alist_insert(m2, key, t)),
                    None => Err(not_scalar(key)),
                }
            },
        }
    }
}

/// Adds one top-level entry to `m`.
pub open spec fn flatten_entry(
    m: Seq<(Seq<char>, Seq<char>)>,
    name: Seq<char>,
    e: EntryView,
) -> Result<Seq<(Seq<char>, Seq<char>)>, DkErrorView> {
    match e {
        EntryView::Section(inner) => flatten_section(m, name, inner),
        EntryView::Scalar(v) => match scalar_text(v) {
            Some(t) => Ok(alist_insert(m, name, t)),
            None => Err(not_scalar(name)),
        },
    }
}

/// The flat `section.key -> text` map of a document's entries.
pub open spec fn flatten(entries: Seq<(Seq<char>, EntryView)>) -> Result<
    Seq<(Seq<char>, Seq<char>)>,
    DkErrorView,
>
    decreases entries.len(),
{
    if entries.len() == 0 {
        Ok(Seq::empty())
    } else {
        match flatten(entries.drop_last()) {
            Err(e) => Err(e),
            Ok(m) => flatten_entry(m, entries.last().0, entries.last().1),
        }
    }
}

/// The error, if any, for the map's `schema` tag: a tag must parse as
/// `drakkar.<name>/<major>` with a major of at most 1.
pub open spec fn schema_gate(m: Seq<(Seq<char>, Seq<char>)>) -> Option<DkErrorView> {
    match alist_get(m, "schema"@) {
        None => None,
        Some(tag) => match schema_tag_parse(tag) {
            Some(p) => if p.1 <= 1 {
                None
            } else {
                Some(
                    invalid_value_view(
                        "schema"@,
                        tag,
                        "major <= 1 (found "@ + nat_decimal(p.1) + ")"@,
                    ),
                )
            },
            None => Some(invalid_value_view("schema"@, tag, "drakkar.config/<major>"@)),
        },
    }
}

/// The normative key set plus the optional `schema` tag.
pub open spec fn known_key(k: Seq<char>) -> bool {
    ||| k == "schema"@
    ||| k == "server.host"@
    ||| k == "server.port"@
    ||| k == "server.api_key"@
    ||| k == "server.hide_reasoning"@
    ||| k == "server.responses_api"@
    ||| k == "models.default"@
    ||| k == "storage.path"@
    ||| k == "storage.import_hf_cache"@
    ||| k == "kv_cache.disk"@
    ||| k == "kv_cache.bits"@
    ||| k == "kv_cache.disk_budget_gib"@
    ||| k == "kv_cache.ttl_min"@
    ||| k == "runtime.keep_alive"@
    ||| k == "scheduler.max_concurrency"@
    ||| k == "telemetry"@
}

/// Whether `k` is a known key.
pub fn is_known_key(k: &str) -> (r: bool)
    ensures
        r == known_key(k@),
{
    str_eq(k, "schema") || str_eq(k, "server.host") || str_eq(k, "server.port") || str_eq(
        k,
        "server.api_key",
    ) || str_eq(k, "server.hide_reasoning") || str_eq(k, "server.responses_api") || str_eq(
        k,
        "models.default",
    ) || str_eq(k, "storage.path") || str_eq(k, "storage.import_hf_cache") || str_eq(
        k,
        "kv_cache.disk",
    ) || str_eq(k, "kv_cache.bits") || str_eq(k, "kv_cache.disk_budget_gib") || str_eq(
        k,
        "kv_cache.ttl_min",
    ) || str_eq(k, "runtime.keep_alive") || str_eq(k, "scheduler.max_concurrency") || str_eq(
        k,
        "telemetry",
    )
}

/// Strict lexicographic order on character sequences (the order of `String`,
/// whose UTF-8 bytes compare as the code points do).
pub open spec fn lex_lt(a: Seq<char>, b: Seq<char>) -> bool
    decreases a.len(),
{
    if a.len() == 0 {
        b.len() > 0
    } else if b.len() == 0 {
        false
    } else if a[0] != b[0] {
        (a[0] as int) < (b[0] as int)
    } else {
        lex_lt(a.drop_first(), b.drop_first())
    }
}

/// The lexicographically least unknown key among `keys`, if any.
pub open spec fn least_unknown(keys: Seq<Seq<char>>) -> Option<Seq<char>>
    decreases keys.len(),
{
    if keys.len() == 0 {
        None
    } else {
        let k = keys.last();
        let rest = least_unknown(keys.drop_last());
        if known_key(k) {
            rest
        } else {
            match rest {
                None => Some(k),
                Some(r) => if lex_lt(k, r) {
                    Some(k)
                } else {
                    Some(r)
                },
            }
        }
    }
}

/// The keys of a flat map, in order.
pub open spec fn alist_keys(m: Seq<(Seq<char>, Seq<char>)>) -> Seq<Seq<char>> {
    m.map_values(|p: (Seq<char>, Seq<char>)| p.0)
}

/// A newline in the parser's message becomes a space.
pub open spec fn one_line(s: Seq<char>) -> Seq<char> {
    s.map_values(|c: char| if c == '\n' { ' ' } else { c })
}

/// What reading a parsed document yields: the flat map, or the first error
/// (parse, non-scalar value, schema major, unknown key, in that order).
pub open spec fn file_map_spec(doc: Result<Seq<(Seq<char>, EntryView)>, Seq<char>>) -> Result<
    Seq<(Seq<char>, Seq<char>)>,
    DkErrorView,
> {
    match doc {
        Err(msg) => Err(invalid_value_view("config.toml"@, one_line(msg), "valid TOML"@)),
        Ok(entries) => match flatten(entries) {
            Err(e) => Err(e),
            Ok(m) => match schema_gate(m) {
                Some(e) => Err(e),
                None => match least_unknown(alist_keys(m)) {
                    Some(k) => Err(invalid_key_view(k)),
                    None => Ok(m),
                },
            },
        },
    }
}

/// A flat `section.key -> text` map read from a config file, in insertion
/// order with unique keys.
pub struct FileMap {
    entries: Vec<(String, String)>,
}

impl View for FileMap {
    type V = Seq<(Seq<char>, Seq<char>)>;

    closed spec fn view(&self) -> Seq<(Seq<char>, Seq<char>)> {
        self.entries@.map_values(|p: (String, String)| (p.0@, p.1@))
    }
}

impl FileMap {
    /// The empty map.
    pub fn new() -> (r: FileMap)
        ensures
            r@ == Seq::<(Seq<char>, Seq<char>)>::empty(),
    {
        let r = FileMap { entries: Vec::new() };
        assert(r@ =~= Seq::<(Seq<char>, Seq<char>)>::empty());
        r
    }

    fn position(&self, key: &str) -> (r: Option<usize>)
        ensures
            r matches Some(i) ==> alist_index(self@, key@) == i as int,
            r is None ==> alist_index(self@, key@) == -1,
    {
        let n = self.entries.len();
        let mut i = n;
        assert(self@.subrange(0, n as int) =~= self@);
        while i > 0
            invariant
                i <= n,
                n == self.entries@.len(),
                alist_index(self@, key@) == alist_index(self@.subrange(0, i as int), key@),
            decreases i,
        {
            let ghost pre = self@.subrange(0, i as int);
            assert(pre.last().0 == self.entries@[i - 1].0@);
            if str_eq(self.entries[i - 1].0.as_str(), key) {
                return Some(i - 1);
            }
            assert(pre.drop_last() =~= self@.subrange(0, i - 1));
            i = i - 1;
        }
        None
    }

    /// The value bound to `key`, if any.
    pub fn get(&self, key: &str) -> (r: Option<String>)
        ensures
            r matches Some(v) ==> alist_get(self@, key@) == Some(v@),
            r is None ==> alist_get(self@, key@) is None,
    {
        proof {
            lemma_alist_index_bounds(self@, key@);
        }
        match self.position(key) {
            Some(i) => Some(self.entries[i].1.clone()),
            None => None,
        }
    }

    /// Binds `key` to `value`, replacing an existing binding in place.
    pub fn insert(&mut self, key: String, value: String)
        ensures
            final(self)@ == alist_insert(old(self)@, key@, value@),
    {
        proof {
            lemma_alist_index_bounds(self@, key@);
        }
        let pos = self.position(key.as_str());
        let ghost k = key@;
        let ghost v = value@;
        match pos {
            Some(i) => {
                self.entries.set(i, (key, value));
            },
            None => {
                self.entries.push((key, value));
            },
        }
        assert(self@ =~= alist_insert(old(self)@, k, v));
    }

    /// The number of entries.
    pub fn len(&self) -> (r: usize)
        ensures
            r == self@.len(),
    {
        self.entries.len()
    }

    /// The key of entry `i`.
    pub fn key_at(&self, i: usize) -> (r: &str)
        requires
            i < self@.len(),
        ensures
            r@ == self@[i as int].0,
    {
        self.entries[i].0.as_str()
    }
}

/// The text of a scalar, or `None` for a table, array or datetime.
fn scalar_text_of(v: &TomlScalar) -> (r: Option<String>)
    ensures
        r matches Some(t) ==> scalar_text(v@) == Some(t@),
        r is None ==> scalar_text(v@) is None,
{
    match v {
        TomlScalar::Str(s) => Some(s.clone()),
        TomlScalar::Int(i) => {
            let mut t = String::new();
            push_i64(&mut t, *i);
            assert(t@ =~= int_decimal(*i as int));
            Some(t)
        },
        TomlScalar::Bool(b) => {
            if *b {
                Some("true".to_owned())
            } else {
                Some("false".to_owned())
            }
        },
        TomlScalar::Float(t) => Some(t.clone()),
        TomlScalar::Other => None,
    }
}

fn dotted(section: &str, k: &str) -> (r: String)
    ensures
        r@ == section@ + "."@ + k@,
{
    let mut s = String::new();
    push_str(&mut s, section);
    push_str(&mut s, ".");
    push_str(&mut s, k);
    assert(s@ =~= section@ + "."@ + k@);
    s
}

fn not_scalar_error(key: &str) -> (r: DkError)
    ensures
        r@ == not_scalar(key@),
{
    invalid_value(key, "table/array", "a scalar value")
}

/// The lexicographic comparison `a < b`.
fn lex_less(a: &[char], b: &[char]) -> (r: bool)
    ensures
        r == lex_lt(a@, b@),
{
    let mut i: usize = 0;
    assert(a@.subrange(0, a@.len() as int) =~= a@);
    assert(b@.subrange(0, b@.len() as int) =~= b@);
    while i < a.len() && i < b.len() && a[i] == b[i]
        invariant
            i <= a@.len(),
            i <= b@.len(),
            lex_lt(a@, b@) == lex_lt(a@.subrange(i as int, a@.len() as int), b@.subrange(
                i as int,
                b@.len() as int,
            )),
        decreases a@.len() - i,
    {
        proof {
            let sa = a@.subrange(i as int, a@.len() as int);
            let sb = b@.subrange(i as int, b@.len() as int);
            assert(sa.drop_first() =~= a@.subrange(i + 1, a@.len() as int));
            assert(sb.drop_first() =~= b@.subrange(i + 1, b@.len() as int));
        }
        i = i + 1;
    }
    let ghost sa = a@.subrange(i as int, a@.len() as int);
    let ghost sb = b@.subrange(i as int, b@.len() as int);
    if i == a.len() {
        i < b.len()
    } else if i == b.len() {
        false
    } else {
        assert(sa[0] == a@[i as int] && sb[0] == b@[i as int]);
        let x = a[i];
        let y = b[i];
        x < y
    }
}

/// Once a prefix of a section fails, the whole section fails the same way.
proof fn lemma_flatten_section_err(
    m: Seq<(Seq<char>, Seq<char>)>,
    section: Seq<char>,
    inner: Seq<(Seq<char>, ScalarView)>,
    k: int,
)
    requires
        0 <= k <= inner.len(),
        flatten_section(m, section, inner.subrange(0, k)) is Err,
    ensures
        flatten_section(m, section, inner) == flatten_section(m, section, inner.subrange(0, k)),
    decreases inner.len(),
{
    if k == inner.len() {
        assert(inner.subrange(0, k) =~= inner);
    } else {
        assert(inner.drop_last().subrange(0, k) =~= inner.subrange(0, k));
        lemma_flatten_section_err(m, section, inner.drop_last(), k);
    }
}

/// Once a prefix of the entries fails, the whole document fails the same way.
proof fn lemma_flatten_err(entries: Seq<(Seq<char>, EntryView)>, k: int)
    requires
        0 <= k <= entries.len(),
        flatten(entries.subrange(0, k)) is Err,
    ensures
        flatten(entries) == flatten(entries.subrange(0, k)),
    decreases entries.len(),
{
    if k == entries.len() {
        assert(entries.subrange(0, k) =~= entries);
    } else {
        assert(entries.drop_last().subrange(0, k) =~= entries.subrange(0, k));
        lemma_flatten_err(entries.drop_last(), k);
    }
}

/// Lexicographic order is transitive.
pub proof fn lemma_lex_lt_transitive(a: Seq<char>, b: Seq<char>, c: Seq<char>)
    requires
        lex_lt(a, b),
        lex_lt(b, c),
    ensures
        lex_lt(a, c),
    decreases a.len(),
{
    if a.len() > 0 && b.len() > 0 && c.len() > 0 && a[0] == b[0] && b[0] == c[0] {
        lemma_lex_lt_transitive(a.drop_first(), b.drop_first(), c.drop_first());
    }
}

/// The least unknown key is an unknown key of the list, and no unknown key of
/// the list sorts before it; without unknown keys there is none.
pub proof fn lemma_least_unknown_is_least(keys: Seq<Seq<char>>)
    ensures
        least_unknown(keys) matches Some(k) ==> keys.contains(k) && !known_key(k) && forall|
            j: int,
        |
            0 <= j < keys.len() && !known_key(#[trigger] keys[j]) ==> !lex_lt(keys[j], k),
        least_unknown(keys) is None ==> forall|j: int|
            0 <= j < keys.len() ==> known_key(#[trigger] keys[j]),
    decreases keys.len(),
{
    if keys.len() > 0 {
        let init = keys.drop_last();
        lemma_least_unknown_is_least(init);
        let k = keys.last();
        assert forall|j: int| 0 <= j < keys.len() - 1 implies keys[j] == init[j] by {}
        match least_unknown(init) {
            Some(r) => {
                assert(init.contains(r));
                let w = choose|j: int| 0 <= j < init.len() && init[j] == r;
                assert(keys[w] == r);
                if !known_key(k) && lex_lt(k, r) {
                    assert forall|j: int|
                        0 <= j < keys.len() && !known_key(#[trigger] keys[j]) implies !lex_lt(
                        keys[j],
                        k,
                    ) by {
                        if j < keys.len() - 1 && lex_lt(keys[j], k) {
                            lemma_lex_lt_transitive(keys[j], k, r);
                        }
                        if j == keys.len() - 1 {
                            lemma_lex_lt_irreflexive(k);
                        }
                    }
                    assert(keys[keys.len() - 1] == k);
                }
            },
            None => {
                if !known_key(k) {
                    lemma_lex_lt_irreflexive(k);
                    assert(keys[keys.len() - 1] == k);
                }
            },
        }
    }
}

/// No sequence sorts before itself.
pub proof fn lemma_lex_lt_irreflexive(a: Seq<char>)
    ensures
        !lex_lt(a, a),
    decreases a.len(),
{
    if a.len() > 0 {
        lemma_lex_lt_irreflexive(a.drop_first());
    }
}

/// A newline-free copy of `s`: each `\n` becomes a space.
fn to_one_line(s: &str) -> (r: String)
    ensures
        r@ == one_line(s@),
{
    let v = chars_of(s);
    let mut out = String::new();
    let mut i: usize = 0;
    while i < v.len()
        invariant
            i <= v@.len(),
            v@ == s@,
            out@ == one_line(v@.subrange(0, i as int)),
        decreases v@.len() - i,
    {
        let c = v[i];
        if c == '\n' {
            push_char(&mut out, ' ');
        } else {
            push_char(&mut out, c);
        }
        i = i + 1;
        assert(out@ =~= one_line(v@.subrange(0, i as int)));
    }
    assert(v@.subrange(0, v@.len() as int) =~= v@);
    out
}

/// The flat map of a parsed document, with the schema gate and the
/// unknown-key check applied.
pub fn file_map_from_document(doc: Result<Vec<(String, TomlEntry)>, String>) -> (r: Result<
    FileMap,
    DkError,
>)
    ensures
        match file_map_spec(document_view(doc)) {
            Ok(m) => r matches Ok(f) && f@ == m,
            Err(e) => r matches Err(x) && x@ == e,
        },
{
    let ghost docv = document_view(doc);
    let entries = match doc {
        Err(msg) => {
            let m = to_one_line(msg.as_str());
            return Err(invalid_value("config.toml", m.as_str(), "valid TOML"));
        },
        Ok(v) => v,
    };
    let ghost ev = entries@.map_values(|p: (String, TomlEntry)| (p.0@, p.1@));
    assert(docv == Ok::<_, Seq<char>>(ev));
    let mut map = FileMap::new();
    let mut i: usize = 0;
    assert(ev.subrange(0, 0) =~= Seq::<(Seq<char>, EntryView)>::empty());
    while i < entries.len()
        invariant
            i <= entries@.len(),
            ev == entries@.map_values(|p: (String, TomlEntry)| (p.0@, p.1@)),
            docv == document_view(doc),
            docv == Ok::<_, Seq<char>>(ev),
            flatten(ev.subrange(0, i as int)) == Ok::<_, DkErrorView>(map@),
        decreases entries@.len() - i,
    {
        let ghost pre = ev.subrange(0, i + 1);
        assert(pre.drop_last() =~= ev.subrange(0, i as int));
        assert(pre.last() == ev[i as int]);
        let name = entries[i].0.as_str();
        match &entries[i].1 {
            TomlEntry::Section(inner) => {
                let ghost iv = section_view(inner@);
                let ghost start = map@;
                let mut j: usize = 0;
                assert(iv.subrange(0, 0) =~= Seq::<(Seq<char>, ScalarView)>::empty());
                assert(ev[i as int] == (name@, EntryView::Section(iv)));
                while j < inner.len()
                    invariant
                        j <= inner@.len(),
                        i < entries@.len(),
                        docv == document_view(doc),
                        docv == Ok::<_, Seq<char>>(ev),
                        ev.len() == entries@.len(),
                        ev[i as int] == (name@, EntryView::Section(iv)),
                        flatten(ev.subrange(0, i as int)) == Ok::<_, DkErrorView>(start),
                        pre == ev.subrange(0, i + 1),
                        pre.drop_last() =~= ev.subrange(0, i as int),
                        pre.last() == ev[i as int],
                        iv == section_view(inner@),
                        flatten_section(start, name@, iv.subrange(0, j as int)) == Ok::<
                            _,
                            DkErrorView,
                        >(map@),
                    decreases inner@.len() - j,
                {
                    let ghost ipre = iv.subrange(0, j + 1);
                    assert(ipre.drop_last() =~= iv.subrange(0, j as int));
                    assert(ipre.last() == iv[j as int]);
                    let key = dotted(name, inner[j].0.as_str());
                    match scalar_text_of(&inner[j].1) {
                        Some(t) => {
                            map.insert(key, t);
                        },
                        None => {
                            proof {
                                lemma_flatten_section_err(start, name@, iv, j + 1);
                                assert(iv.subrange(0, inner@.len() as int) =~= iv);
                                lemma_flatten_err(ev, i + 1);
                                assert(flatten(ev) == Err::<Seq<(Seq<char>, Seq<char>)>, DkErrorView>(
                                    not_scalar(key@),
                                ));
                            }
                            return Err(not_scalar_error(key.as_str()));
                        },
                    }
                    j = j + 1;
                }
                assert(iv.subrange(0, inner@.len() as int) =~= iv);
            },
            TomlEntry::Scalar(v) => {
                assert(ev[i as int] == (name@, EntryView::Scalar(v@)));
                match scalar_text_of(v) {
                    Some(t) => {
                        map.insert(name.to_owned(), t);
                    },
                    None => {
                        proof {
                            lemma_flatten_err(ev, i + 1);
                            assert(flatten(ev) == Err::<Seq<(Seq<char>, Seq<char>)>, DkErrorView>(
                                not_scalar(name@),
                            ));
                        }
                        return Err(not_scalar_error(name));
                    },
                }
            },
        }
        i = i + 1;
    }
    assert(ev.subrange(0, entries@.len() as int) =~= ev);
    let ghost m = map@;
    match map.get("schema") {
        Some(tag) => {
            match SchemaTag::parse(tag.as_str()) {
                Some(p) => {
                    if p.major > 1 {
                        let mut exp = String::new();
                        push_str(&mut exp, "major <= 1 (found ");
                        push_u64(&mut exp, p.major as u64);
                        push_str(&mut exp, ")");
                        assert(exp@ =~= "major <= 1 (found "@ + nat_decimal(p.major as nat) + ")"@);
                        return Err(invalid_value("schema", tag.as_str(), exp.as_str()));
                    }
                },
                None => {
                    return Err(invalid_value("schema", tag.as_str(), "drakkar.config/<major>"));
                },
            }
        },
        None => {},
    }
    let mut least: Option<usize> = None;
    let mut k: usize = 0;
    while k < map.len()
        invariant
            k <= m.len(),
            m == map@,
            match least {
                None => least_unknown(alist_keys(m).subrange(0, k as int)) is None,
                Some(w) => w < m.len() && least_unknown(alist_keys(m).subrange(0, k as int))
                    == Some(m[w as int].0),
            },
        decreases m.len() - k,
    {
        let ghost pre = alist_keys(m).subrange(0, k + 1);
        assert(pre.drop_last() =~= alist_keys(m).subrange(0, k as int));
        assert(pre.last() == m[k as int].0);
        let key = map.key_at(k);
        if !is_known_key(key) {
            match least {
                None => {
                    least = Some(k);
                },
                Some(w) => {
                    let a = chars_of(key);
                    let b = chars_of(map.key_at(w));
                    if lex_less(a.as_slice(), b.as_slice()) {
                        least = Some(k);
                    }
                },
            }
        }
        k = k + 1;
    }
    assert(alist_keys(m).subrange(0, m.len() as int) =~= alist_keys(m));
    match least {
        Some(w) => Err(invalid_key(map.key_at(w))),
        None => Ok(map),
    }
}

/// Reads a `config.toml` text into its flat map.
pub fn load_file_map(s: &str) -> (r: Result<FileMap, DkError>)
    ensures
        match file_map_spec(toml_document(s@)) {
            Ok(m) => r matches Ok(f) && f@ == m,
            Err(e) => r matches Err(x) && x@ == e,
        },
{
    file_map_from_document(parse_toml_document(s))
}

} // verus!
