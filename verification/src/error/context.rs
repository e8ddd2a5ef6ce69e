//! Typed key/value context carried by an error and used to fill remedy
//! templates. Keys are unique: inserting an existing key replaces its value.

use vstd::prelude::*;

use crate::text::{chars_eq, chars_of, int_decimal, push_i64, push_str};

verus! {

/// A JSON-native scalar value carried in an [`ErrorContext`] (a path, a model
/// id, a count; never user content or secrets).
#[derive(Debug)]
pub enum ContextValue {
    /// A string value.
    Str(String),
    /// A signed integer value.
    Int(i64),
    /// A boolean value.
    Bool(bool),
}

/// The mathematical value of a [`ContextValue`].
pub enum CtxVal {
    /// A string value.
    Str(Seq<char>),
    /// A signed integer value.
    Int(i64),
    /// A boolean value.
    Bool(bool),
}

impl View for ContextValue {
    type V = CtxVal;

    open spec fn view(&self) -> CtxVal {
        match self {
            ContextValue::Str(s) => CtxVal::Str(s@),
            ContextValue::Int(n) => CtxVal::Int(*n),
            ContextValue::Bool(b) => CtxVal::Bool(*b),
        }
    }
}

/// How a value renders into a remedy placeholder: a string without quotes,
/// numbers and booleans in their natural form.
pub open spec fn ctx_display(v: CtxVal) -> Seq<char> {
    match v {
        CtxVal::Str(s) => s,
        CtxVal::Int(n) => int_decimal(n as int),
        CtxVal::Bool(b) => if b {
            "true"@
        } else {
            "false"@
        },
    }
}

impl ContextValue {
    /// Appends the placeholder rendering of this value to `out`.
    pub fn push_display(&self, out: &mut String)
        ensures
            final(out)@ == old(out)@ + ctx_display(self@),
    {
        match self {
            ContextValue::Str(s) => push_str(out, s.as_str()),
            ContextValue::Int(n) => push_i64(out, *n),
            ContextValue::Bool(b) => {
                if *b {
                    push_str(out, "true");
                } else {
                    push_str(out, "false");
                }
            },
        }
    }

    /// The placeholder rendering of this value.
    pub fn to_display(&self) -> (r: String)
        ensures
            r@ == ctx_display(self@),
    {
        let mut s = String::new();
        self.push_display(&mut s);
        assert(s@ =~= ctx_display(self@));
        s
    }

    /// A copy of this value.
    pub fn duplicate(&self) -> (r: ContextValue)
        ensures
            r@ == self@,
    {
        match self {
            ContextValue::Str(s) => ContextValue::Str(s.clone()),
            ContextValue::Int(n) => ContextValue::Int(*n),
            ContextValue::Bool(b) => ContextValue::Bool(*b),
        }
    }
}

/// The index of the entry holding key `k`, or `-1`.
pub open spec fn key_index(s: Seq<(Seq<char>, CtxVal)>, k: Seq<char>) -> int
    decreases s.len(),
{
    if s.len() == 0 {
        -1
    } else if s.last().0 == k {
        s.len() - 1
    } else {
        key_index(s.drop_last(), k)
    }
}

/// The entries after inserting `k -> v`: an existing key is replaced in
/// place, a new key is appended.
pub open spec fn ctx_insert(s: Seq<(Seq<char>, CtxVal)>, k: Seq<char>, v: CtxVal) -> Seq<
    (Seq<char>, CtxVal),
> {
    let i = key_index(s, k);
    if i >= 0 {
        s.update(i, (k, v))
    } else {
        s.push((k, v))
    }
}

/// The value bound to `k`, if any.
pub open spec fn ctx_lookup(s: Seq<(Seq<char>, CtxVal)>, k: Seq<char>) -> Option<CtxVal> {
    let i = key_index(s, k);
    if i >= 0 {
        Some(s[i].1)
    } else {
        None
    }
}

/// The key index is either `-1` or a valid index of an entry with that key.
pub proof fn lemma_key_index_bounds(s: Seq<(Seq<char>, CtxVal)>, k: Seq<char>)
    ensures
        -1 <= key_index(s, k) < s.len(),
        key_index(s, k) >= 0 ==> s[key_index(s, k)].0 == k,
        key_index(s, k) < 0 ==> forall|j: int| 0 <= j < s.len() ==> s[j].0 != k,
        key_index(s, k) >= 0 ==> forall|j: int| key_index(s, k) < j < s.len() ==> s[j].0 != k,
    decreases s.len(),
{
    if s.len() > 0 && s.last().0 != k {
        lemma_key_index_bounds(s.drop_last(), k);
        assert forall|j: int| 0 <= j < s.len() - 1 implies s.drop_last()[j] == s[j] by {}
    }
}

/// Typed key/value context for an error.
#[derive(Debug)]
pub struct ErrorContext {
    entries: Vec<(String, ContextValue)>,
}

impl View for ErrorContext {
    type V = Seq<(Seq<char>, CtxVal)>;

    closed spec fn view(&self) -> Seq<(Seq<char>, CtxVal)> {
        self.entries@.map_values(|e: (String, ContextValue)| (e.0@, e.1@))
    }
}

impl ErrorContext {
    /// An empty context.
    pub fn new() -> (r: ErrorContext)
        ensures
            r@ == Seq::<(Seq<char>, CtxVal)>::empty(),
    {
        let r = ErrorContext { entries: Vec::new() };
        assert(r@ =~= Seq::<(Seq<char>, CtxVal)>::empty());
        r
    }

    /// The position of `key` among the entries, or `None`.
    fn position(&self, key: &[char]) -> (r: Option<usize>)
        ensures
            r matches Some(i) ==> key_index(self@, key@) == i as int,
            r is None ==> key_index(self@, key@) == -1,
    {
        let n = self.entries.len();
        let mut i = n;
        assert(self@.subrange(0, n as int) =~= self@);
        while i > 0
            invariant
                i <= n,
                n == self.entries@.len(),
                key_index(self@, key@) == key_index(self@.subrange(0, i as int), key@),
            decreases i,
        {
            let ghost pre = self@.subrange(0, i as int);
            let entry_key = chars_of(self.entries[i - 1].0.as_str());
            assert(pre.last().0 == entry_key@);
            if chars_eq(entry_key.as_slice(), key) {
                return Some(i - 1);
            }
            assert(pre.drop_last() =~= self@.subrange(0, i - 1));
            i = i - 1;
        }
        None
    }

    /// Inserts a key/value pair, returning the context for chaining.
    pub fn with(self, key: &str, value: ContextValue) -> (r: ErrorContext)
        ensures
            r@ == ctx_insert(self@, key@, value@),
    {
        let kc = chars_of(key);
        let pos = self.position(kc.as_slice());
        proof {
            lemma_key_index_bounds(self@, key@);
        }
        let mut entries = self.entries;
        let ghost before = entries@;
        assert(self@.len() == before.len());
        match pos {
            Some(i) => {
                entries.set(i, (key.to_owned(), value));
            },
            None => {
                entries.push((key.to_owned(), value));
            },
        }
        let r = ErrorContext { entries };
        proof {
            let old_view = before.map_values(|e: (String, ContextValue)| (e.0@, e.1@));
            assert(old_view == self@);
            assert(r@ =~= ctx_insert(self@, key@, value@));
        }
        r
    }

    /// Inserts a string value.
    pub fn with_str(self, key: &str, value: &str) -> (r: ErrorContext)
        ensures
            r@ == ctx_insert(self@, key@, CtxVal::Str(value@)),
    {
        self.with(key, ContextValue::Str(value.to_owned()))
    }

    /// Inserts an integer value.
    pub fn with_int(self, key: &str, value: i64) -> (r: ErrorContext)
        ensures
            r@ == ctx_insert(self@, key@, CtxVal::Int(value)),
    {
        self.with(key, ContextValue::Int(value))
    }

    /// Inserts a boolean value.
    pub fn with_bool(self, key: &str, value: bool) -> (r: ErrorContext)
        ensures
            r@ == ctx_insert(self@, key@, CtxVal::Bool(value)),
    {
        self.with(key, ContextValue::Bool(value))
    }

    /// Looks up a value by its key given as characters.
    pub fn get_chars(&self, key: &[char]) -> (r: Option<&ContextValue>)
        ensures
            r matches Some(v) ==> ctx_lookup(self@, key@) == Some(v@),
            r is None ==> ctx_lookup(self@, key@) is None,
    {
        match self.position(key) {
            Some(i) => {
                proof {
                    lemma_key_index_bounds(self@, key@);
                }
                Some(&self.entries[i].1)
            },
            None => None,
        }
    }

    /// Looks up a value by key.
    pub fn get(&self, key: &str) -> (r: Option<&ContextValue>)
        ensures
            r matches Some(v) ==> ctx_lookup(self@, key@) == Some(v@),
            r is None ==> ctx_lookup(self@, key@) is None,
    {
        let kc = chars_of(key);
        self.get_chars(kc.as_slice())
    }

    /// Whether the context is empty.
    pub fn is_empty(&self) -> (r: bool)
        ensures
            r == (self@.len() == 0),
    {
        self.entries.len() == 0
    }

    /// The number of entries.
    pub fn len(&self) -> (r: usize)
        ensures
            r == self@.len(),
    {
        self.entries.len()
    }

    /// The key and value of the entry at `i`, in insertion order.
    pub fn entry(&self, i: usize) -> (r: (&str, &ContextValue))
        requires
            i < self@.len(),
        ensures
            r.0@ == self@[i as int].0,
            r.1@ == self@[i as int].1,
    {
        (self.entries[i].0.as_str(), &self.entries[i].1)
    }

    /// A copy of this context.
    pub fn duplicate(&self) -> (r: ErrorContext)
        ensures
            r@ == self@,
    {
        let mut entries: Vec<(String, ContextValue)> = Vec::new();
        let mut i: usize = 0;
        while i < self.entries.len()
            invariant
                i <= self.entries@.len(),
                entries@.len() == i,
                forall|j: int|
                    0 <= j < i ==> (#[trigger] entries@[j]).0@ == self.entries@[j].0@
                        && entries@[j].1@ == self.entries@[j].1@,
            decreases self.entries@.len() - i,
        {
            let k = self.entries[i].0.clone();
            let v = self.entries[i].1.duplicate();
            entries.push((k, v));
            i = i + 1;
        }
        let r = ErrorContext { entries };
        assert(r@ =~= self@);
        r
    }
}

} // verus!
