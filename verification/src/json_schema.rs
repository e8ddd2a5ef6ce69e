//! A focused JSON Schema (draft-07 subset) validator for the agent-facing
//! JSON surfaces: `const`, `enum`, `type`, `required`, `properties` and
//! `items`. Unknown properties are permitted, which is what keeps a surface
//! additive-only within a schema major.
//!
//! A document is held as a [`JsonTree`]: its shape, the strings the checks
//! read, and each node's compact JSON text (numbers in their canonical
//! rendering, object members in their map's sorted order). `const` and `enum`
//! compare values by these texts, which tells apart exactly the values that
//! differ, but for a float zero and its negative; the texts are also what the
//! messages quote.

use vstd::prelude::*;

use crate::text::{all_digits, chars_of, digits_value, is_digit, nat_decimal, push_str, push_u64, str_eq, sub_chars};

verus! {

/// The shape of a JSON value.
pub enum JsonNode {
    /// `null`.
    Null,
    /// `true` / `false`.
    Bool(bool),
    /// A number, as its canonical text.
    Number(String),
    /// A string, unescaped.
    Str(String),
    /// An array.
    Array(Vec<JsonTree>),
    /// An object, its members in map order (keys unique).
    Object(Vec<(String, JsonTree)>),
}

/// A JSON value: its shape, its compact JSON text, and, for an array, the
/// debug listing of its elements (`[String("a"), Number(1)]`) that an `enum`
/// violation quotes.
pub struct JsonTree {
    /// The shape.
    pub node: JsonNode,
    /// The compact JSON text.
    pub text: String,
    /// The debug listing of an array's elements; empty for other values.
    pub items_debug: String,
}

/// The index of the first member at or after `i` named `k`, or `-1`.
pub open spec fn member_index(m: Seq<(String, JsonTree)>, k: Seq<char>, i: int) -> int
    decreases m.len() - i,
{
    if i < 0 || i >= m.len() {
        -1
    } else if m[i].0@ == k {
        i
    } else {
        member_index(m, k, i + 1)
    }
}

/// The member `k` of an object (`Value::get`); `None` for a missing key or a
/// value that is not an object.
pub open spec fn member(t: JsonTree, k: Seq<char>) -> Option<JsonTree> {
    match t.node {
        JsonNode::Object(m) => {
            let i = member_index(m@, k, 0);
            if 0 <= i < m@.len() {
                Some(m@[i].1)
            } else {
                None
            }
        },
        _ => None,
    }
}

/// Whether some choice has the value's text, that is, equals the value.
pub open spec fn among(choices: Seq<JsonTree>, v: JsonTree) -> bool {
    exists|i: int| 0 <= i < choices.len() && (#[trigger] choices[i]).text@ == v.text@
}

/// The first string of `req` from `i` on that `obj` has no member for.
pub open spec fn first_missing(req: Seq<JsonTree>, obj: JsonTree, i: int) -> Option<Seq<char>>
    decreases req.len() - i,
{
    if i < 0 || i >= req.len() {
        None
    } else {
        match req[i].node {
            JsonNode::Str(k) => if member(obj, k@) is None {
                Some(k@)
            } else {
                first_missing(req, obj, i + 1)
            },
            _ => first_missing(req, obj, i + 1),
        }
    }
}

/// The index of the first character of `t` at or after `i` that is not an
/// ASCII digit (the length when there is none).
pub open spec fn digits_end(t: Seq<char>, i: int) -> int
    decreases t.len() - i,
{
    if 0 <= i < t.len() && is_digit(t[i]) {
        digits_end(t, i + 1)
    } else {
        i
    }
}

/// The value of an exponent part `[eE] [+-]? digits` (zero when there is
/// none), or `None` when `r` is not one.
pub open spec fn exponent_of(r: Seq<char>) -> Option<int> {
    if r.len() == 0 {
        Some(0)
    } else if r[0] != 'e' && r[0] != 'E' {
        None
    } else {
        let signed = r.len() > 1 && (r[1] == '-' || r[1] == '+');
        let d = r.subrange(if signed { 2int } else { 1int }, r.len() as int);
        if d.len() > 0 && all_digits(d) {
            Some(
                if signed && r[1] == '-' {
                    -(digits_value(d) as int)
                } else {
                    digits_value(d) as int
                },
            )
        } else {
            None
        }
    }
}

/// The parts of a JSON number text `-? int (. frac)? ([eE] [+-]? exp)?`: its
/// integer digits, its fraction digits and its exponent; `None` when the
/// text is not a number.
pub open spec fn number_parts(t: Seq<char>) -> Option<(Seq<char>, Seq<char>, int)> {
    let u = if t.len() > 0 && t[0] == '-' {
        t.drop_first()
    } else {
        t
    };
    let i1 = digits_end(u, 0);
    let has_dot = i1 < u.len() && u[i1] == '.';
    let i2 = if has_dot {
        digits_end(u, i1 + 1)
    } else {
        i1
    };
    let fp = if has_dot {
        u.subrange(i1 + 1, i2)
    } else {
        Seq::empty()
    };
    let exp = exponent_of(u.subrange(i2, u.len() as int));
    if i1 == 0 || (has_dot && i2 == i1 + 1) || exp is None {
        None
    } else {
        Some((u.subrange(0, i1), fp, exp->0))
    }
}

/// Whether a number text denotes an integer (draft-07's `integer`): every
/// digit that the exponent leaves after the decimal point is a zero, so `2`,
/// `2.0` and `1.5e1` are integers and `1.5` is not.
pub open spec fn integral_text(t: Seq<char>) -> bool {
    match number_parts(t) {
        None => false,
        Some(parts) => {
            let all = parts.0 + parts.1;
            forall|j: int| 0 <= j < all.len() && parts.0.len() + parts.2 <= j ==> #[trigger] all[j] == '0'
        },
    }
}

/// `<path>: expected <what>, got <value>`.
pub open spec fn mismatch(path: Seq<char>, what: Seq<char>, v: JsonTree) -> Seq<char> {
    path + ": expected "@ + what + ", got "@ + v.text@
}

/// What validating `value` against `schema` at `path` yields: `Ok`, or the
/// message for the first violation (const, then enum, then type with its
/// required keys, properties in map order and items in order).
pub open spec fn schema_check(value: JsonTree, schema: JsonTree, path: Seq<char>) -> Result<
    (),
    Seq<char>,
>
    decreases value, 1int, 0int,
{
    let c = member(schema, "const"@);
    let e = member(schema, "enum"@);
    if c is Some && c->0.text@ != value.text@ {
        Err(path + ": expected const "@ + c->0.text@ + ", got "@ + value.text@)
    } else if e is Some && e->0.node is Array && !among(e->0.node->Array_0@, value) {
        Err(path + ": "@ + value.text@ + " is not one of "@ + e->0.items_debug@)
    } else {
        match member(schema, "type"@) {
            Some(t) => match t.node {
                JsonNode::Str(ty) => if ty@ == "object"@ {
                    if value.node is Object {
                        let req = member(schema, "required"@);
                        let missing = if req is Some && req->0.node is Array {
                            first_missing(req->0.node->Array_0@, value, 0)
                        } else {
                            None
                        };
                        match missing {
                            Some(k) => Err(path + ": missing required field `"@ + k + "`"@),
                            None => match member(schema, "properties"@) {
                                Some(p) => match p.node {
                                    JsonNode::Object(props) => check_props(value, props@, 0, path),
                                    _ => Ok(()),
                                },
                                None => Ok(()),
                            },
                        }
                    } else {
                        Err(mismatch(path, "object"@, value))
                    }
                } else if ty@ == "array"@ {
                    if value.node is Array {
                        match member(schema, "items"@) {
                            Some(item_schema) => check_items(value, item_schema, 0, path),
                            None => Ok(()),
                        }
                    } else {
                        Err(mismatch(path, "array"@, value))
                    }
                } else if ty@ == "string"@ {
                    if value.node is Str {
                        Ok(())
                    } else {
                        Err(mismatch(path, "string"@, value))
                    }
                } else if ty@ == "number"@ {
                    if value.node is Number {
                        Ok(())
                    } else {
                        Err(mismatch(path, "number"@, value))
                    }
                } else if ty@ == "integer"@ {
                    if value.node is Number && integral_text(value.node->Number_0@) {
                        Ok(())
                    } else {
                        Err(mismatch(path, "integer"@, value))
                    }
                } else if ty@ == "boolean"@ {
                    if value.node is Bool {
                        Ok(())
                    } else {
                        Err(mismatch(path, "boolean"@, value))
                    }
                } else {
                    Err(path + ": unsupported schema type `"@ + ty@ + "`"@)
                },
                _ => Ok(()),
            },
            None => Ok(()),
        }
    }
}

/// Each property schema from `i` on, applied to the object's member of that
/// name when it has one, at `path.<name>`.
pub open spec fn check_props(
    value: JsonTree,
    props: Seq<(String, JsonTree)>,
    i: int,
    path: Seq<char>,
) -> Result<(), Seq<char>>
    decreases value, 0int, props.len() - i,
{
    if i < 0 || i >= props.len() {
        Ok(())
    } else {
        let k = props[i].0@;
        let here = match value.node {
            JsonNode::Object(m) => {
                let j = member_index(m@, k, 0);
                if 0 <= j < m@.len() {
                    schema_check(m@[j].1, props[i].1, path + "."@ + k)
                } else {
                    Ok(())
                }
            },
            _ => Ok(()),
        };
        match here {
            Err(e) => Err(e),
            Ok(_) => check_props(value, props, i + 1, path),
        }
    }
}

/// The item schema applied to each element from `i` on, at `path[i]`.
pub open spec fn check_items(value: JsonTree, item_schema: JsonTree, i: int, path: Seq<char>) -> Result<
    (),
    Seq<char>,
>
    decreases value, 0int, (match value.node {
        JsonNode::Array(items) => items@.len(),
        _ => 0,
    }) - i,
{
    match value.node {
        JsonNode::Array(items) => if i < 0 || i >= items@.len() {
            Ok(())
        } else {
            match schema_check(items@[i], item_schema, path + "["@ + nat_decimal(i as nat) + "]"@) {
                Err(e) => Err(e),
                Ok(_) => check_items(value, item_schema, i + 1, path),
            }
        },
        _ => Ok(()),
    }
}

fn digits_end_at(v: &Vec<char>, i: usize) -> (r: usize)
    requires
        i <= v@.len(),
    ensures
        r == digits_end(v@, i as int),
        i <= r <= v@.len(),
        forall|j: int| i <= j < r ==> is_digit(#[trigger] v@[j]),
{
    let mut j = i;
    while j < v.len() && '0' <= v[j] && v[j] <= '9'
        invariant
            i <= j <= v@.len(),
            digits_end(v@, i as int) == digits_end(v@, j as int),
            forall|k: int| i <= k < j ==> is_digit(#[trigger] v@[k]),
        decreases v@.len() - j,
    {
        j = j + 1;
    }
    j
}

/// The exponent part `u[from..]`: `None` when it is malformed, else its sign
/// and its magnitude, clamped to `cap`.
fn exponent_clamped(u: &Vec<char>, from: usize, cap: u128) -> (r: Option<(bool, u128)>)
    requires
        from <= u@.len(),
        0 < cap <= 0x1_0000_0000_0000_0001,
    ensures
        match exponent_of(u@.subrange(from as int, u@.len() as int)) {
            None => r is None,
            Some(e) => r matches Some(p) && (p.0 ==> e <= 0) && (!p.0 ==> e >= 0) && ({
                let a = if e < 0 {
                    -e
                } else {
                    e
                };
                if a >= cap {
                    p.1 == cap
                } else {
                    p.1 == a
                }
            }),
        },
{
    let ghost r = u@.subrange(from as int, u@.len() as int);
    let n = u.len();
    if from == n {
        return Some((false, 0));
    }
    if u[from] != 'e' && u[from] != 'E' {
        return None;
    }
    assert(r.len() == n - from && r[0] == u@[from as int]);
    assert(from + 1 < n ==> r[1] == u@[from + 1]);
    let signed = from + 1 < n && (u[from + 1] == '-' || u[from + 1] == '+');
    let neg = signed && u[from + 1] == '-';
    let start = if signed {
        from + 2
    } else {
        from + 1
    };
    assert(r.subrange(start - from, r.len() as int) =~= u@.subrange(start as int, n as int));
    if start >= n {
        return None;
    }
    match clamped_digits(u, start, cap) {
        None => None,
        Some(mag) => Some((neg, mag)),
    }
}

/// The digits `u[start..]` read as a number clamped to `cap`, or `None` when
/// one of them is not a digit.
fn clamped_digits(u: &Vec<char>, start: usize, cap: u128) -> (r: Option<u128>)
    requires
        start <= u@.len(),
        0 < cap <= 0x1_0000_0000_0000_0001,
    ensures
        ({
            let d = u@.subrange(start as int, u@.len() as int);
            match r {
                None => !all_digits(d),
                Some(m) => all_digits(d) && m == (if digits_value(d) >= cap {
                    cap as nat
                } else {
                    digits_value(d)
                }),
            }
        }),
{
    let n = u.len();
    let mut mag: u128 = 0;
    let mut k = start;
    while k < n
        invariant
            start <= k <= n,
            n == u@.len(),
            0 < cap <= 0x1_0000_0000_0000_0001,
            all_digits(u@.subrange(start as int, k as int)),
            mag == (if digits_value(u@.subrange(start as int, k as int)) >= cap {
                cap as nat
            } else {
                digits_value(u@.subrange(start as int, k as int))
            }),
        decreases n - k,
    {
        let c = u[k];
        let ghost pre = u@.subrange(start as int, k as int);
        let ghost next = u@.subrange(start as int, k + 1);
        assert(next.drop_last() =~= pre);
        assert(next.last() == c);
        if !('0' <= c && c <= '9') {
            assert(!all_digits(u@.subrange(start as int, n as int))) by {
                assert(u@.subrange(start as int, n as int)[k - start] == c);
            }
            return None;
        }
        let d = (c as u32 - '0' as u32) as u128;
        assert(d == crate::text::digit_value(c));
        if mag < cap {
            mag = mag * 10 + d;
            if mag > cap {
                mag = cap;
            }
        }
        k = k + 1;
        assert(forall|j: int| 0 <= j < next.len() ==> #[trigger] next[j] == (if j < pre.len() { pre[j] } else { c }));
    }
    Some(mag)
}


/// Whether a number text denotes an integer.
#[verifier::rlimit(40)]
fn integral_number(t: &str) -> (r: bool)
    ensures
        r == integral_text(t@),
{
    let v = chars_of(t);
    let u = if v.len() > 0 && v[0] == '-' {
        sub_chars(v.as_slice(), 1, v.len())
    } else {
        sub_chars(v.as_slice(), 0, v.len())
    };
    assert(v@.len() > 0 && v@[0] == '-' ==> u@ =~= t@.drop_first());
    assert(!(v@.len() > 0 && v@[0] == '-') ==> u@ =~= t@);
    let n = u.len();
    let i1 = digits_end_at(&u, 0);
    if i1 == 0 {
        return false;
    }
    let has_dot = i1 < n && u[i1] == '.';
    let i2 = if has_dot {
        digits_end_at(&u, i1 + 1)
    } else {
        i1
    };
    if has_dot && i2 == i1 + 1 {
        return false;
    }
    let cap: u128 = n as u128 + 1;
    let (neg, mag) = match exponent_clamped(&u, i2, cap) {
        Some(p) => p,
        None => return false,
    };
    let mut all = sub_chars(u.as_slice(), 0, i1);
    if has_dot {
        let f = sub_chars(u.as_slice(), i1 + 1, i2);
        let ghost a0 = all@;
        let mut k: usize = 0;
        while k < f.len()
            invariant
                k <= f@.len(),
                all@ == a0 + f@.subrange(0, k as int),
            decreases f@.len() - k,
        {
            all.push(f[k]);
            k = k + 1;
            assert(all@ =~= a0 + f@.subrange(0, k as int));
        }
        assert(f@.subrange(0, f@.len() as int) =~= f@);
    }
    let total = all.len();
    let lo: i128 = if neg {
        i1 as i128 - mag as i128
    } else {
        i1 as i128 + mag as i128
    };
    let start: usize = if lo < 0 {
        0
    } else if lo > total as i128 {
        total
    } else {
        lo as usize
    };
    let ghost parts = number_parts(t@);
    assert(parts is Some);
    let ghost (ip, fp, e) = parts->0;
    assert(all@ =~= ip + fp);
    assert(total <= n);
    // The clamped exponent leaves the same digits after the point.
    assert((i1 + e <= 0 && start == 0) || (i1 + e >= total && start == total) || start == i1 + e);
    let mut j = start;
    while j < total
        invariant
            start <= j <= total,
            total == all@.len(),
            all@ == ip + fp,
            number_parts(t@) == Some((ip, fp, e)),
            ip.len() == i1,
            (i1 + e <= 0 && start == 0) || (i1 + e >= total && start == total) || start == i1 + e,
            forall|k: int| start <= k < j ==> #[trigger] all@[k] == '0',
        decreases total - j,
    {
        if all[j] != '0' {
            assert(!integral_text(t@)) by {
                let parts = number_parts(t@)->0;
                assert(parts == (ip, fp, e));
                assert((parts.0 + parts.1)[j as int] != '0');
                assert(parts.0.len() + parts.2 <= j);
            }
            return false;
        }
        j = j + 1;
    }
    true
}

/// The position of the first member named `k`.
fn find_member(m: &Vec<(String, JsonTree)>, k: &str) -> (r: Option<usize>)
    ensures
        match r {
            Some(j) => j < m@.len() && member_index(m@, k@, 0) == j as int,
            None => member_index(m@, k@, 0) == -1,
        },
{
    let mut i: usize = 0;
    while i < m.len()
        invariant
            i <= m@.len(),
            member_index(m@, k@, 0) == member_index(m@, k@, i as int),
        decreases m@.len() - i,
    {
        if str_eq(m[i].0.as_str(), k) {
            return Some(i);
        }
        i = i + 1;
    }
    None
}

/// The member `k` of an object, as `Value::get` finds it.
fn get_member<'a>(t: &'a JsonTree, k: &str) -> (r: Option<&'a JsonTree>)
    ensures
        match r {
            Some(x) => member(*t, k@) == Some(*x),
            None => member(*t, k@) is None,
        },
{
    match &t.node {
        JsonNode::Object(m) => match find_member(m, k) {
            Some(j) => Some(&m[j].1),
            None => None,
        },
        _ => None,
    }
}

/// Whether some choice equals `v`.
fn contains_value(choices: &Vec<JsonTree>, v: &JsonTree) -> (r: bool)
    ensures
        r == among(choices@, *v),
{
    let mut i: usize = 0;
    while i < choices.len()
        invariant
            i <= choices@.len(),
            forall|j: int| 0 <= j < i ==> (#[trigger] choices@[j]).text@ != v.text@,
        decreases choices@.len() - i,
    {
        if str_eq(choices[i].text.as_str(), v.text.as_str()) {
            return true;
        }
        i = i + 1;
    }
    false
}

/// The first required key that `obj` lacks.
fn missing_required<'a>(req: &'a Vec<JsonTree>, obj: &JsonTree) -> (r: Option<&'a str>)
    ensures
        match r {
            Some(k) => first_missing(req@, *obj, 0) == Some(k@),
            None => first_missing(req@, *obj, 0) is None,
        },
{
    let mut i: usize = 0;
    while i < req.len()
        invariant
            i <= req@.len(),
            first_missing(req@, *obj, 0) == first_missing(req@, *obj, i as int),
        decreases req@.len() - i,
    {
        if let JsonNode::Str(k) = &req[i].node {
            if get_member(obj, k.as_str()).is_none() {
                return Some(k.as_str());
            }
        }
        i = i + 1;
    }
    None
}

/// `<path>: expected <what>, got <value>`.
fn mismatch_message(path: &str, what: &str, v: &JsonTree) -> (r: String)
    ensures
        r@ == mismatch(path@, what@, *v),
{
    let mut m = String::new();
    push_str(&mut m, path);
    push_str(&mut m, ": expected ");
    push_str(&mut m, what);
    push_str(&mut m, ", got ");
    push_str(&mut m, v.text.as_str());
    m
}

/// Validates `value` against `schema` (a draft-07 subset: `const`, `enum`,
/// `type`, `required`, `properties`, `items`), naming the first violation
/// by its path from `path`.
#[verifier::rlimit(60)]
pub fn validate(value: &JsonTree, schema: &JsonTree, path: &str) -> (r: Result<(), String>)
    ensures
        r is Ok <==> schema_check(*value, *schema, path@) is Ok,
        r matches Err(m) ==> schema_check(*value, *schema, path@) == Err::<(), Seq<char>>(m@),
    decreases value,
{
    if let Some(c) = get_member(schema, "const") {
        if !str_eq(c.text.as_str(), value.text.as_str()) {
            let mut m = String::new();
            push_str(&mut m, path);
            push_str(&mut m, ": expected const ");
            push_str(&mut m, c.text.as_str());
            push_str(&mut m, ", got ");
            push_str(&mut m, value.text.as_str());
            return Err(m);
        }
    }
    if let Some(e) = get_member(schema, "enum") {
        if let JsonNode::Array(choices) = &e.node {
            if !contains_value(choices, value) {
                let mut m = String::new();
                push_str(&mut m, path);
                push_str(&mut m, ": ");
                push_str(&mut m, value.text.as_str());
                push_str(&mut m, " is not one of ");
                push_str(&mut m, e.items_debug.as_str());
                return Err(m);
            }
        }
    }
    let ty = match get_member(schema, "type") {
        Some(t) => match &t.node {
            JsonNode::Str(ty) => ty.as_str(),
            _ => return Ok(()),
        },
        None => return Ok(()),
    };
    if str_eq(ty, "object") {
        let map = match &value.node {
            JsonNode::Object(map) => map,
            _ => return Err(mismatch_message(path, "object", value)),
        };
        if let Some(req) = get_member(schema, "required") {
            if let JsonNode::Array(keys) = &req.node {
                if let Some(k) = missing_required(keys, value) {
                    let mut m = String::new();
                    push_str(&mut m, path);
                    push_str(&mut m, ": missing required field `");
                    push_str(&mut m, k);
                    push_str(&mut m, "`");
                    return Err(m);
                }
            }
        }
        if let Some(p) = get_member(schema, "properties") {
            if let JsonNode::Object(props) = &p.node {
                assert(schema_check(*value, *schema, path@) == check_props(*value, props@, 0, path@));
                let mut i: usize = 0;
                while i < props.len()
                    invariant
                        i <= props@.len(),
                        schema_check(*value, *schema, path@) == check_props(*value, props@, 0, path@),
                        value.node == JsonNode::Object(*map),
                        check_props(*value, props@, 0, path@) == check_props(
                            *value,
                            props@,
                            i as int,
                            path@,
                        ),
                    decreases props@.len() - i,
                {
                    let k = props[i].0.as_str();
                    if let Some(j) = find_member(map, k) {
                        let mut sub = String::new();
                        push_str(&mut sub, path);
                        push_str(&mut sub, ".");
                        push_str(&mut sub, k);
                        if let Err(e) = validate(&map[j].1, &props[i].1, sub.as_str()) {
                            return Err(e);
                        }
                    }
                    i = i + 1;
                }
            }
        }
        Ok(())
    } else if str_eq(ty, "array") {
        let items = match &value.node {
            JsonNode::Array(items) => items,
            _ => return Err(mismatch_message(path, "array", value)),
        };
        if let Some(item_schema) = get_member(schema, "items") {
            assert(schema_check(*value, *schema, path@) == check_items(
                *value,
                *item_schema,
                0,
                path@,
            ));
            let mut i: usize = 0;
            while i < items.len()
                invariant
                    i <= items@.len(),
                    schema_check(*value, *schema, path@) == check_items(
                        *value,
                        *item_schema,
                        0,
                        path@,
                    ),
                    value.node == JsonNode::Array(*items),
                    check_items(*value, *item_schema, 0, path@) == check_items(
                        *value,
                        *item_schema,
                        i as int,
                        path@,
                    ),
                decreases items@.len() - i,
            {
                let mut sub = String::new();
                push_str(&mut sub, path);
                push_str(&mut sub, "[");
                push_u64(&mut sub, i as u64);
                push_str(&mut sub, "]");
                if let Err(e) = validate(&items[i], item_schema, sub.as_str()) {
                    return Err(e);
                }
                i = i + 1;
            }
        }
        Ok(())
    } else if str_eq(ty, "string") {
        match &value.node {
            JsonNode::Str(_) => Ok(()),
            _ => Err(mismatch_message(path, "string", value)),
        }
    } else if str_eq(ty, "number") {
        match &value.node {
            JsonNode::Number(_) => Ok(()),
            _ => Err(mismatch_message(path, "number", value)),
        }
    } else if str_eq(ty, "integer") {
        match &value.node {
            JsonNode::Number(t) => if integral_number(t.as_str()) {
                Ok(())
            } else {
                Err(mismatch_message(path, "integer", value))
            },
            _ => Err(mismatch_message(path, "integer", value)),
        }
    } else if str_eq(ty, "boolean") {
        match &value.node {
            JsonNode::Bool(_) => Ok(()),
            _ => Err(mismatch_message(path, "boolean", value)),
        }
    } else {
        let mut m = String::new();
        push_str(&mut m, path);
        push_str(&mut m, ": unsupported schema type `");
        push_str(&mut m, ty);
        push_str(&mut m, "`");
        Err(m)
    }
}

} // verus!
