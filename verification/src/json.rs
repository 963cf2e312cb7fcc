//! A JSON document model and dot-path navigation.
//!
//! Documents arrive as the bytes of HTTP responses and are parsed with
//! `serde_json` into a [`JsonValue`].  Numbers are held as the text that the
//! JSON parser prints for them.  Object members keep their order; keys are unique,
//! as in any parsed object, and lookups take the first member with the key.

use vstd::prelude::*;
use crate::text::{opt_view, span, split_on, split_ranges, chars_of, at_u, skip_u, lemma_skip_step, lemma_split_on_join};

verus! {

/// A JSON value.
#[derive(Debug, PartialEq)]
pub enum JsonValue {
    Null,
    Bool(bool),
    /// A number, as the text that the parser prints for it (e.g. `42`, `1.5`).
    Number(String),
    String(String),
    Array(Vec<JsonValue>),
    Object(Vec<(String, JsonValue)>),
}

/// The document `serde_json::from_slice` parses from `bytes`, in the
/// library's form, or the message of its error.
pub uninterp spec fn json_document(bytes: Seq<u8>) -> Result<JsonValue, Seq<char>>;

/// The library's form of a `serde_json` value, converted one for one
/// (numbers as `serde_json` prints them, object members in its order).
#[verifier::external_body]
fn json_from_serde(v: &serde_json::Value) -> JsonValue {
    match v {
        serde_json::Value::Null => JsonValue::Null,
        serde_json::Value::Bool(b) => JsonValue::Bool(*b),
        serde_json::Value::Number(n) => JsonValue::Number(n.to_string()),
        serde_json::Value::String(s) => JsonValue::String(s.clone()),
        serde_json::Value::Array(items) => JsonValue::Array(items.iter().map(json_from_serde).collect()),
        serde_json::Value::Object(m) => JsonValue::Object(
            m.iter().map(|(k, x)| (k.clone(), json_from_serde(x))).collect(),
        ),
    }
}

/// `serde_json::from_slice` into a `serde_json::Value`, converted to the
/// library's form, its error printed.  Claimed: the document or the message
/// is the one [`json_document`] names for `bytes`.
#[verifier::external_body]
pub fn parse_json(bytes: &[u8]) -> (r: Result<JsonValue, String>)
    ensures
        match json_document(bytes@) {
            Ok(d) => r == Ok::<JsonValue, String>(d),
            Err(m) => r matches Err(e) && e@ == m,
        },
{
    match serde_json::from_slice::<serde_json::Value>(bytes) {
        Ok(v) => Ok(json_from_serde(&v)),
        Err(e) => Err(e.to_string()),
    }
}

/// The value of the first member of `m` whose key is `key`.
pub open spec fn object_get(m: Seq<(String, JsonValue)>, key: Seq<char>) -> Option<JsonValue>
    decreases m.len(),
{
    if m.len() == 0 {
        None
    } else if m[0].0@ == key {
        Some(m[0].1)
    } else {
        object_get(m.drop_first(), key)
    }
}

/// The member `key` of `v` when `v` is an object.
pub open spec fn member_of(v: JsonValue, key: Seq<char>) -> Option<JsonValue> {
    match v {
        JsonValue::Object(m) => object_get(m@, key),
        _ => None,
    }
}

/// Follow the keys `segs` through nested objects.
pub open spec fn navigate(v: JsonValue, segs: Seq<Seq<char>>) -> Option<JsonValue>
    decreases segs.len(),
{
    if segs.len() == 0 {
        Some(v)
    } else {
        match v {
            JsonValue::Object(m) => match object_get(m@, segs[0]) {
                Some(child) => navigate(child, segs.drop_first()),
                None => None,
            },
            _ => None,
        }
    }
}

/// Following two key lists in turn is following their concatenation.
proof fn lemma_navigate_concat(v: JsonValue, s1: Seq<Seq<char>>, s2: Seq<Seq<char>>)
    ensures
        navigate(v, s1 + s2) == match navigate(v, s1) {
            Some(w) => navigate(w, s2),
            None => None,
        },
    decreases s1.len(),
{
    if s1.len() == 0 {
        assert(s1 + s2 =~= s2);
    } else {
        assert((s1 + s2)[0] == s1[0]);
        assert((s1 + s2).drop_first() =~= s1.drop_first() + s2);
        match v {
            JsonValue::Object(m) => match object_get(m@, s1[0]) {
                Some(child) => lemma_navigate_concat(child, s1.drop_first(), s2),
                None => {},
            },
            _ => {},
        }
    }
}

/// What a dot-separated path selects in `root`: the root itself for no path
/// or an empty path, otherwise the value reached by following each key.
pub open spec fn path_lookup(root: JsonValue, path: Option<Seq<char>>) -> Option<JsonValue> {
    match path {
        Some(p) => if p.len() == 0 {
            Some(root)
        } else {
            navigate(root, split_on(p, '.'))
        },
        None => Some(root),
    }
}

/// The text of a scalar option value: a string as is, a number as
/// printed; nothing for booleans, null, arrays and objects (an option value
/// must be a string or a number).
pub open spec fn scalar_text(v: JsonValue) -> Option<Seq<char>> {
    match v {
        JsonValue::String(s) => Some(s@),
        JsonValue::Number(n) => Some(n@),
        _ => None,
    }
}

/// The text of a display label: a string as is, a number as printed, a
/// boolean as `true` or `false`; nothing for null, arrays and objects.
pub open spec fn label_text(v: JsonValue) -> Option<Seq<char>> {
    match v {
        JsonValue::Bool(b) => Some(if b {
            "true"@
        } else {
            "false"@
        }),
        _ => scalar_text(v),
    }
}

/// The text of a display label (see [`label_text`]).
pub fn label_to_string(v: &JsonValue) -> (r: Option<String>)
    ensures
        match r {
            Some(t) => label_text(*v) == Some(t@),
            None => label_text(*v) is None,
        },
{
    match v {
        JsonValue::Bool(b) => Some(if *b {
            String::from_str("true")
        } else {
            String::from_str("false")
        }),
        _ => scalar_to_string(v),
    }
}

/// The text of a scalar (see [`scalar_text`]).
pub fn scalar_to_string(v: &JsonValue) -> (r: Option<String>)
    ensures
        match r {
            Some(t) => scalar_text(*v) == Some(t@),
            None => scalar_text(*v) is None,
        },
{
    match v {
        JsonValue::String(s) => Some(s.clone()),
        JsonValue::Number(n) => Some(n.clone()),
        _ => None,
    }
}

/// `key` equals the characters `v[from..to]`.
pub fn str_equals_span(key: &str, v: &Vec<char>, from: usize, to: usize) -> (r: bool)
    requires
        from <= to <= v.len(),
    ensures
        r == (key@ == span(v@, from, to)),
{
    let n = key.unicode_len();
    if n != to - from {
        return false;
    }
    let mut i: usize = 0;
    while i < n
        invariant
            n == key@.len(),
            n == to - from,
            from <= to <= v.len(),
            i <= n,
            forall|k: int| 0 <= k < i ==> key@[k] == v@[from + k],
        decreases n - i,
    {
        if key.get_char(i) != v[from + i] {
            assert(key@[i as int] != span(v@, from, to)[i as int]);
            return false;
        }
        i = i + 1;
    }
    assert(key@ =~= span(v@, from, to));
    true
}

/// The first member of `m` whose key is `v[from..to]`.
fn member_span<'a>(m: &'a Vec<(String, JsonValue)>, v: &Vec<char>, from: usize, to: usize) -> (r:
    Option<&'a JsonValue>)
    requires
        from <= to <= v.len(),
    ensures
        match r {
            Some(x) => object_get(m@, span(v@, from, to)) == Some(*x),
            None => object_get(m@, span(v@, from, to)) is None,
        },
{
    let ghost key = span(v@, from, to);
    let mut j: usize = 0;
    assert(skip_u(m@, 0) =~= m@);
    while j < m.len()
        invariant
            j <= m@.len(),
            key == span(v@, from, to),
            from <= to <= v.len(),
            object_get(m@, key) == object_get(skip_u(m@, j), key),
        decreases m@.len() - j,
    {
        proof {
            lemma_skip_step(m@, j);
        }
        if str_equals_span(m[j].0.as_str(), v, from, to) {
            return Some(&m[j].1);
        }
        j = j + 1;
    }
    None
}

impl JsonValue {
    /// The member `key` of an object; `None` for a missing key or a value
    /// that is not an object.
    pub fn get(&self, key: &str) -> (r: Option<&JsonValue>)
        ensures
            match *self {
                JsonValue::Object(m) => match r {
                    Some(x) => object_get(m@, key@) == Some(*x),
                    None => object_get(m@, key@) is None,
                },
                _ => r is None,
            },
            match r {
                Some(x) => member_of(*self, key@) == Some(*x),
                None => member_of(*self, key@) is None,
            },
    {
        match self {
            JsonValue::Object(m) => {
                let kv = chars_of(key);
                let n = kv.len();
                assert(span(kv@, 0, n) =~= key@);
                member_span(m, &kv, 0, n)
            },
            _ => None,
        }
    }
}

/// Walk a JSON value along a dot-separated path (`"data.builds"` selects
/// `root["data"]["builds"]`); no path or an empty path selects the root.
pub fn json_navigate<'a>(root: &'a JsonValue, path: Option<&str>) -> (r: Option<&'a JsonValue>)
    ensures
        match r {
            Some(x) => path_lookup(*root, opt_view(path)) == Some(*x),
            None => path_lookup(*root, opt_view(path)) is None,
        },
{
    let p = match path {
        Some(p) => p,
        None => {
            return Some(root);
        },
    };
    let pv = chars_of(p);
    if pv.len() == 0 {
        return Some(root);
    }
    let segs = split_ranges(&pv, '.');
    let ghost all = split_on(p@, '.');
    let mut current: &JsonValue = root;
    let mut i: usize = 0;
    assert(skip_u(all, 0) =~= all);
    while i < segs.len()
        invariant
            pv@ == p@,
            pv@.len() > 0,
            all == split_on(pv@, '.'),
            segs@.len() == all.len(),
            forall|k: int|
                0 <= k < segs@.len() ==> {
                    &&& (#[trigger] segs@[k]).0 <= segs@[k].1 <= pv.len()
                    &&& span(pv@, segs@[k].0, segs@[k].1) == all[k]
                },
            i <= segs@.len(),
            navigate(*root, all) == navigate(*current, skip_u(all, i)),
            path_lookup(*root, opt_view(path)) == navigate(*root, all),
        decreases segs@.len() - i,
    {
        let (from, to) = segs[i];
        proof {
            lemma_skip_step(all, i);
            assert(at_u(segs@, i) == (from, to));
        }
        match current {
            JsonValue::Object(m) => {
                match member_span(m, &pv, from, to) {
                    Some(child) => {
                        current = child;
                    },
                    None => {
                        return None;
                    },
                }
            },
            _ => {
                return None;
            },
        }
        i = i + 1;
    }
    Some(current)
}

/// Law: a dotted path is followed one part at a time — looking up
/// `a.b` is looking up `b` in what `a` selects (`"data.builds"` selects
/// `root["data"]["builds"]`).
pub proof fn law_dotted_path_composes(root: JsonValue, a: Seq<char>, b: Seq<char>)
    requires
        a.len() > 0,
        b.len() > 0,
    ensures
        path_lookup(root, Some(a + seq!['.'] + b)) == match path_lookup(root, Some(a)) {
            Some(w) => path_lookup(w, Some(b)),
            None => None,
        },
{
    lemma_split_on_join(a, b, '.');
    lemma_navigate_concat(root, split_on(a, '.'), split_on(b, '.'));
    assert((a + seq!['.'] + b).len() > 0);
}

} // verus!
