//! Reading JSON text through serde_json: an object into its members, and
//! single values into plain Rust values.
use vstd::prelude::*;
use serde_json::value::RawValue;
use std::collections::BTreeMap;
use vstd::string::StringExecFns;

verus! {

/// The members of a JSON object, each key with the raw text of its value.
pub type Members = Vec<(String, String)>;

/// The view of a member list: keys and raw value texts as character sequences.
pub open spec fn members_view(m: Seq<(String, String)>) -> Seq<(Seq<char>, Seq<char>)> {
    m.map_values(|p: (String, String)| (p.0@, p.1@))
}

/// What serde_json reads from a text as a JSON object: its members, in the
/// order of a sorted map, with the raw text of each value; `None` when the
/// text is not a JSON object.
pub uninterp spec fn json_members(text: Seq<char>) -> Option<Seq<(Seq<char>, Seq<char>)>>;

/// What serde_json reads from a text as an `i64`.
pub uninterp spec fn json_int(text: Seq<char>) -> Option<i64>;

/// What serde_json reads from a text as a string.
pub uninterp spec fn json_text(text: Seq<char>) -> Option<Seq<char>>;

/// The JSON string literal that serde_json writes for a text.
pub uninterp spec fn json_quoted(s: Seq<char>) -> Seq<char>;

/// Relies on serde_json::from_str into a sorted map of keys to raw values
/// (RawValue::get gives each value's text as it stood in the input).
#[verifier::external_body]
pub(crate) fn parse_members(text: &str) -> (r: Option<Members>)
    ensures
        match r {
            Some(m) => json_members(text@) == Some(members_view(m@)),
            None => json_members(text@) is None,
        },
{
    match serde_json::from_str::<BTreeMap<String, Box<RawValue>>>(text) {
        Ok(map) => Some(map.into_iter().map(|(k, v)| (k, v.get().to_string())).collect()),
        Err(_) => None,
    }
}

/// Relies on serde_json::from_str reading an `i64`.
#[verifier::external_body]
pub(crate) fn parse_int(text: &str) -> (r: Option<i64>)
    ensures
        r == json_int(text@),
{
    serde_json::from_str::<i64>(text).ok()
}

/// Relies on serde_json::from_str reading a `String` (escapes resolved).
#[verifier::external_body]
pub(crate) fn parse_text(text: &str) -> (r: Option<String>)
    ensures
        match r {
            Some(s) => json_text(text@) == Some(s@),
            None => json_text(text@) is None,
        },
{
    serde_json::from_str::<String>(text).ok()
}

/// Relies on serde_json::to_string of a `str`, which writes a quoted and
/// escaped JSON string and cannot fail for it.
#[verifier::external_body]
pub(crate) fn quote(s: &str) -> (r: String)
    ensures
        r@ == json_quoted(s@),
{
    serde_json::to_string(s).unwrap_or_default()
}

/// The boolean that a raw JSON value stands for: exactly `true` or `false`.
pub open spec fn json_bool(text: Seq<char>) -> Option<bool> {
    if text == seq!['t', 'r', 'u', 'e'] {
        Some(true)
    } else if text == seq!['f', 'a', 'l', 's', 'e'] {
        Some(false)
    } else {
        None
    }
}

/// Reads a raw JSON value as a boolean.
pub fn parse_bool(text: &str) -> (r: Option<bool>)
    ensures
        r == json_bool(text@),
{
    let t = text.to_owned();
    let yes = <String as StringExecFns>::from_str("true");
    let no = <String as StringExecFns>::from_str("false");
    proof {
        reveal_strlit("true");
        reveal_strlit("false");
    }
    if t == yes {
        assert(yes@ =~= seq!['t', 'r', 'u', 'e']);
        Some(true)
    } else if t == no {
        assert(no@ =~= seq!['f', 'a', 'l', 's', 'e']);
        Some(false)
    } else {
        assert(yes@ =~= seq!['t', 'r', 'u', 'e']);
        assert(no@ =~= seq!['f', 'a', 'l', 's', 'e']);
        None
    }
}

/// The first member under `key`, from position `i` on.
pub open spec fn find_from(m: Seq<(Seq<char>, Seq<char>)>, key: Seq<char>, i: int) -> Option<Seq<char>>
    decreases m.len() - i,
{
    if i < 0 || i >= m.len() {
        None
    } else if m[i].0 == key {
        Some(m[i].1)
    } else {
        find_from(m, key, i + 1)
    }
}

/// The raw value of the first member under `key`.
pub open spec fn find(m: Seq<(Seq<char>, Seq<char>)>, key: Seq<char>) -> Option<Seq<char>> {
    find_from(m, key, 0)
}

/// Looks up the raw value of the first member under `key`.
pub fn lookup(m: &Members, key: &str) -> (r: Option<String>)
    ensures
        match r {
            Some(v) => find(members_view(m@), key@) == Some(v@),
            None => find(members_view(m@), key@) is None,
        },
{
    let k = key.to_owned();
    let mut i: usize = 0;
    while i < m.len()
        invariant
            i <= m.len(),
            k@ == key@,
            find(members_view(m@), key@) == find_from(members_view(m@), key@, i as int),
        decreases m.len() - i,
    {
        if m[i].0 == k {
            return Some(m[i].1.clone());
        }
        i = i + 1;
    }
    None
}

} // verus!
