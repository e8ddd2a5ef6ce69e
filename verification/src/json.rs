//! A JSON document as the metadata parser reads it: the top level and one
//! level of nested objects are kept; arrays and deeper objects are known only
//! as such. A number is kept as its `u64` and `i64` readings.

use serde_json::Value;
use JsonDoc::{NotObject, Root};
use JsonItem::{Leaf, Members};
use JsonLeaf::{Bool, Null, Number, Other, Str};
use vstd::prelude::*;

verus! {

/// A JSON value whose contents are not kept (or a number, by its integer
/// readings).
pub enum JsonLeaf {
    /// `null`.
    Null,
    /// A boolean.
    Bool(bool),
    /// A number: its value as a `u64` (a non-negative integer) and as an
    /// `i64` (an integer in range), each `None` when it has no such reading.
    Number(Option<u64>, Option<i64>),
    /// A string.
    Str(String),
    /// An array, or an object nested too deep to be kept.
    Other,
}

/// A member of the top-level object: a value, or an object of values.
pub enum JsonItem {
    /// A non-object value.
    Leaf(JsonLeaf),
    /// An object, with its members in map order.
    Members(Vec<(String, JsonLeaf)>),
}

/// A parsed document: a top-level object with its members in map order, or
/// a document that is not an object.
pub enum JsonDoc {
    /// An object document.
    Root(Vec<(String, JsonItem)>),
    /// A non-object document.
    NotObject,
}

/// The mathematical value of a [`JsonLeaf`].
pub enum LeafView {
    /// `null`.
    Null,
    /// A boolean.
    Bool(bool),
    /// A number's `u64` and `i64` readings.
    Number(Option<u64>, Option<i64>),
    /// A string.
    Str(Seq<char>),
    /// An array or a deep object.
    Other,
}

/// The mathematical value of a [`JsonItem`].
pub enum ItemView {
    /// A non-object value.
    Leaf(LeafView),
    /// An object's members.
    Members(Seq<(Seq<char>, LeafView)>),
}

/// The mathematical value of a [`JsonDoc`].
pub enum DocView {
    /// An object's members.
    Root(Seq<(Seq<char>, ItemView)>),
    /// A non-object document.
    NotObject,
}

impl View for JsonLeaf {
    type V = LeafView;

    open spec fn view(&self) -> LeafView {
        match self {
            JsonLeaf::Null => LeafView::Null,
            JsonLeaf::Bool(b) => LeafView::Bool(*b),
            JsonLeaf::Number(u, i) => LeafView::Number(*u, *i),
            JsonLeaf::Str(s) => LeafView::Str(s@),
            JsonLeaf::Other => LeafView::Other,
        }
    }
}

/// The view of an object's members.
pub open spec fn members_view(v: Seq<(String, JsonLeaf)>) -> Seq<(Seq<char>, LeafView)> {
    v.map_values(|p: (String, JsonLeaf)| (p.0@, p.1@))
}

impl View for JsonItem {
    type V = ItemView;

    open spec fn view(&self) -> ItemView {
        match self {
            JsonItem::Leaf(l) => ItemView::Leaf(l@),
            JsonItem::Members(v) => ItemView::Members(members_view(v@)),
        }
    }
}

impl View for JsonDoc {
    type V = DocView;

    open spec fn view(&self) -> DocView {
        match self {
            JsonDoc::Root(v) => DocView::Root(v@.map_values(|p: (String, JsonItem)| (p.0@, p.1@))),
            JsonDoc::NotObject => DocView::NotObject,
        }
    }
}

/// The view of a parse result.
pub open spec fn doc_result_view(r: Result<JsonDoc, String>) -> Result<DocView, Seq<char>> {
    match r {
        Ok(d) => Ok(d@),
        Err(e) => Err(e@),
    }
}

/// What `serde_json::from_slice` makes of some bytes as a `serde_json::Value`:
/// the document (to the depth kept here), or its error message.
pub uninterp spec fn json_document(bytes: Seq<u8>) -> Result<DocView, Seq<char>>;

/// Parses `bytes` with `serde_json::from_slice` into a `serde_json::Value`
/// and moves it into the library's types, objects in their map's iteration
/// order; the error is the parser's `Display` text. The contract only names
/// the outcome: the parse is `serde_json`'s.
#[verifier::external_body]
pub(crate) fn parse_json(bytes: &[u8]) -> (r: Result<JsonDoc, String>)
    ensures
        doc_result_view(r) == json_document(bytes@),
{
    let leaf = |v| match v {
        Value::Null => Null,
        Value::Bool(b) => Bool(b),
        Value::Number(n) => Number(n.as_u64(), n.as_i64()),
        Value::String(s) => Str(s),
        _ => Other,
    };
    let item = |v| match v {
        Value::Object(m) => Members(m.into_iter().map(|(k, x)| (k, leaf(x))).collect()),
        v => Leaf(leaf(v)),
    };
    Ok(match serde_json::from_slice(bytes).map_err(|e| e.to_string())? {
        Value::Object(m) => Root(m.into_iter().map(|(k, x)| (k, item(x))).collect()),
        _ => NotObject,
    })
}

/// The first member named `k`, if any.
pub open spec fn lookup_item(m: Seq<(Seq<char>, ItemView)>, k: Seq<char>) -> Option<ItemView>
    decreases m.len(),
{
    if m.len() == 0 {
        None
    } else if m[0].0 == k {
        Some(m[0].1)
    } else {
        lookup_item(m.drop_first(), k)
    }
}

/// The first member named `k`, if any.
pub open spec fn lookup_leaf(m: Seq<(Seq<char>, LeafView)>, k: Seq<char>) -> Option<LeafView>
    decreases m.len(),
{
    if m.len() == 0 {
        None
    } else if m[0].0 == k {
        Some(m[0].1)
    } else {
        lookup_leaf(m.drop_first(), k)
    }
}

/// `doc[k]`: the member, or `null` when missing or when the document is not
/// an object.
pub open spec fn doc_field(d: DocView, k: Seq<char>) -> ItemView {
    match d {
        DocView::Root(m) => match lookup_item(m, k) {
            Some(i) => i,
            None => ItemView::Leaf(LeafView::Null),
        },
        DocView::NotObject => ItemView::Leaf(LeafView::Null),
    }
}

/// `item[k]`: the member, or `null` when missing or when the item is not an
/// object.
pub open spec fn item_field(i: ItemView, k: Seq<char>) -> ItemView {
    match i {
        ItemView::Members(m) => match lookup_leaf(m, k) {
            Some(l) => ItemView::Leaf(l),
            None => ItemView::Leaf(LeafView::Null),
        },
        ItemView::Leaf(_) => ItemView::Leaf(LeafView::Null),
    }
}

/// `v.is_null()`.
pub open spec fn is_null(v: ItemView) -> bool {
    v == ItemView::Leaf(LeafView::Null)
}

/// `v.as_u64()`.
pub open spec fn as_u64(v: ItemView) -> Option<u64> {
    match v {
        ItemView::Leaf(LeafView::Number(u, _)) => u,
        _ => None,
    }
}

/// `v.as_i64()`.
pub open spec fn as_i64(v: ItemView) -> Option<i64> {
    match v {
        ItemView::Leaf(LeafView::Number(_, i)) => i,
        _ => None,
    }
}

/// `v.as_str()`.
pub open spec fn as_str(v: ItemView) -> Option<Seq<char>> {
    match v {
        ItemView::Leaf(LeafView::Str(s)) => Some(s),
        _ => None,
    }
}

/// `v.as_bool()`.
pub open spec fn as_bool(v: ItemView) -> Option<bool> {
    match v {
        ItemView::Leaf(LeafView::Bool(b)) => Some(b),
        _ => None,
    }
}

/// A JSON value as the parser reads it: a member of the top-level object, or
/// a member of a nested object.
pub struct Field {
    kind: FieldKind,
}

enum FieldKind {
    Null,
    Bool(bool),
    Number(Option<u64>, Option<i64>),
    Str(String),
    Other,
    Members(Vec<(String, JsonLeaf)>),
}

impl View for Field {
    type V = ItemView;

    closed spec fn view(&self) -> ItemView {
        match self.kind {
            FieldKind::Null => ItemView::Leaf(LeafView::Null),
            FieldKind::Bool(b) => ItemView::Leaf(LeafView::Bool(b)),
            FieldKind::Number(u, i) => ItemView::Leaf(LeafView::Number(u, i)),
            FieldKind::Str(s) => ItemView::Leaf(LeafView::Str(s@)),
            FieldKind::Other => ItemView::Leaf(LeafView::Other),
            FieldKind::Members(m) => ItemView::Members(members_view(m@)),
        }
    }
}

fn leaf_field(l: &JsonLeaf) -> (r: Field)
    ensures
        r@ == ItemView::Leaf(l@),
{
    let kind = match l {
        JsonLeaf::Null => FieldKind::Null,
        JsonLeaf::Bool(b) => FieldKind::Bool(*b),
        JsonLeaf::Number(u, i) => FieldKind::Number(*u, *i),
        JsonLeaf::Str(s) => FieldKind::Str(s.clone()),
        JsonLeaf::Other => FieldKind::Other,
    };
    Field { kind }
}

fn clone_members(m: &Vec<(String, JsonLeaf)>) -> (r: Vec<(String, JsonLeaf)>)
    ensures
        members_view(r@) == members_view(m@),
{
    let mut out: Vec<(String, JsonLeaf)> = Vec::new();
    let mut i: usize = 0;
    while i < m.len()
        invariant
            i <= m@.len(),
            out@.len() == i,
            forall|j: int|
                0 <= j < i ==> (#[trigger] out@[j]).0@ == m@[j].0@ && out@[j].1@ == m@[j].1@,
        decreases m@.len() - i,
    {
        let l = match &m[i].1 {
            JsonLeaf::Null => JsonLeaf::Null,
            JsonLeaf::Bool(b) => JsonLeaf::Bool(*b),
            JsonLeaf::Number(u, n) => JsonLeaf::Number(*u, *n),
            JsonLeaf::Str(s) => JsonLeaf::Str(s.clone()),
            JsonLeaf::Other => JsonLeaf::Other,
        };
        out.push((m[i].0.clone(), l));
        i = i + 1;
    }
    assert(members_view(out@) =~= members_view(m@));
    out
}

fn item_field_of(it: &JsonItem) -> (r: Field)
    ensures
        r@ == it@,
{
    match it {
        JsonItem::Leaf(l) => leaf_field(l),
        JsonItem::Members(m) => Field { kind: FieldKind::Members(clone_members(m)) },
    }
}

impl Field {
    /// `null`.
    pub fn null() -> (r: Field)
        ensures
            r@ == ItemView::Leaf(LeafView::Null),
    {
        Field { kind: FieldKind::Null }
    }

    /// `doc[k]`.
    pub fn of_doc(d: &JsonDoc, k: &str) -> (r: Field)
        ensures
            r@ == doc_field(d@, k@),
    {
        match d {
            JsonDoc::NotObject => Field::null(),
            JsonDoc::Root(m) => {
                let ghost mv = m@.map_values(|p: (String, JsonItem)| (p.0@, p.1@));
                let mut i: usize = 0;
                assert(mv.subrange(0, mv.len() as int) =~= mv);
                while i < m.len()
                    invariant
                        i <= m@.len(),
                        d@ == DocView::Root(mv),
                        mv == m@.map_values(|p: (String, JsonItem)| (p.0@, p.1@)),
                        lookup_item(mv, k@) == lookup_item(mv.subrange(i as int, mv.len() as int), k@),
                    decreases m@.len() - i,
                {
                    let ghost rest = mv.subrange(i as int, mv.len() as int);
                    assert(rest[0] == mv[i as int]);
                    if crate::text::str_eq(m[i].0.as_str(), k) {
                        return item_field_of(&m[i].1);
                    }
                    assert(rest.drop_first() =~= mv.subrange(i + 1, mv.len() as int));
                    i = i + 1;
                }
                Field::null()
            },
        }
    }

    /// `self[k]`.
    pub fn field(&self, k: &str) -> (r: Field)
        ensures
            r@ == item_field(self@, k@),
    {
        match &self.kind {
            FieldKind::Members(m) => {
                let ghost mv = members_view(m@);
                let mut i: usize = 0;
                assert(mv.subrange(0, mv.len() as int) =~= mv);
                while i < m.len()
                    invariant
                        i <= m@.len(),
                        self@ == ItemView::Members(mv),
                        mv == members_view(m@),
                        lookup_leaf(mv, k@) == lookup_leaf(mv.subrange(i as int, mv.len() as int), k@),
                    decreases m@.len() - i,
                {
                    let ghost rest = mv.subrange(i as int, mv.len() as int);
                    assert(rest[0] == mv[i as int]);
                    if crate::text::str_eq(m[i].0.as_str(), k) {
                        return leaf_field(&m[i].1);
                    }
                    assert(rest.drop_first() =~= mv.subrange(i + 1, mv.len() as int));
                    i = i + 1;
                }
                Field::null()
            },
            _ => Field::null(),
        }
    }

    /// `self.is_null()`.
    pub fn is_null(&self) -> (r: bool)
        ensures
            r == is_null(self@),
    {
        match &self.kind {
            FieldKind::Null => true,
            _ => false,
        }
    }

    /// `self.as_u64()`.
    pub fn as_u64(&self) -> (r: Option<u64>)
        ensures
            r == as_u64(self@),
    {
        match &self.kind {
            FieldKind::Number(u, _) => *u,
            _ => None,
        }
    }

    /// `self.as_i64()`.
    pub fn as_i64(&self) -> (r: Option<i64>)
        ensures
            r == as_i64(self@),
    {
        match &self.kind {
            FieldKind::Number(_, i) => *i,
            _ => None,
        }
    }

    /// `self.as_str()`.
    pub fn as_str(&self) -> (r: Option<&str>)
        ensures
            r matches Some(s) ==> as_str(self@) == Some(s@),
            r is None ==> as_str(self@) is None,
    {
        match &self.kind {
            FieldKind::Str(s) => Some(s.as_str()),
            _ => None,
        }
    }

    /// `self.as_bool()`.
    pub fn as_bool(&self) -> (r: Option<bool>)
        ensures
            r == as_bool(self@),
    {
        match &self.kind {
            FieldKind::Bool(b) => Some(*b),
            _ => None,
        }
    }
}

} // verus!
