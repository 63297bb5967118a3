//! JSON documents as plain values, with the accessors that decoding needs.

use vstd::prelude::*;
use vstd::string::*;

verus! {

#[verifier::external_type_specification]
#[verifier::external_body]
pub struct ExJsonValue(serde_json::Value);

#[verifier::external_type_specification]
#[verifier::external_body]
pub struct ExJsonError(serde_json::Error);

/// A JSON value. A number holds its value when it is a non-negative
/// integer that fits in `u64`, and nothing otherwise, beside its text as
/// serde_json writes it. An object holds its members sorted by key, a
/// repeated key keeping its last value, as serde_json's default map does.
#[derive(Debug)]
pub enum Json {
    Null,
    Bool(bool),
    Number(Option<u64>, String),
    Str(String),
    Array(Vec<Json>),
    Object(Vec<(String, Json)>),
}

/// The document that `serde_json::from_str` reads from `text`, or `None`
/// where it refuses the text.
pub uninterp spec fn json_doc(text: Seq<char>) -> Option<Json>;

/// Converts a parsed value one for one.
#[verifier::external_body]
fn to_json(v: &serde_json::Value) -> Json {
    match v {
        serde_json::Value::Null => Json::Null,
        serde_json::Value::Bool(b) => Json::Bool(*b),
        serde_json::Value::Number(n) => Json::Number(n.as_u64(), n.to_string()),
        serde_json::Value::String(s) => Json::Str(s.clone()),
        serde_json::Value::Array(a) => Json::Array(a.iter().map(to_json).collect()),
        serde_json::Value::Object(m) => Json::Object(
            m.iter().map(|(k, v)| (k.clone(), to_json(v))).collect(),
        ),
    }
}

/// Relies on `serde_json::from_str`: parses a JSON document; the result
/// depends on the text alone.
#[verifier::external_body]
pub(crate) fn parse_json(text: &str) -> (r: Result<Json, serde_json::Error>)
    ensures
        r is Ok <==> json_doc(text@) is Some,
        r is Ok ==> r->Ok_0 == json_doc(text@)->0,
{
    serde_json::from_str::<serde_json::Value>(text).map(|v| to_json(&v))
}

/// Relies on `serde_json::Error`'s `Display`: a description of the error.
#[verifier::external_body]
pub(crate) fn json_error_text(e: &serde_json::Error) -> String {
    e.to_string()
}

pub open spec fn deref_opt(o: Option<&Json>) -> Option<Json> {
    match o {
        Some(j) => Some(*j),
        None => None,
    }
}

/// The first member named `key` among `fields`, from position `i` on.
pub open spec fn member_from(fields: Seq<(String, Json)>, key: Seq<char>, i: int) -> Option<Json>
    decreases fields.len() - i,
{
    if i < 0 || i >= fields.len() {
        None
    } else if fields[i].0@ == key {
        Some(fields[i].1)
    } else {
        member_from(fields, key, i + 1)
    }
}

/// The member `key` of an object.
pub open spec fn field(j: Option<Json>, key: Seq<char>) -> Option<Json> {
    match j {
        Some(Json::Object(f)) => member_from(f@, key, 0),
        _ => None,
    }
}

/// A number that fits in `u32`.
pub open spec fn u32_value(j: Option<Json>) -> Option<u32> {
    match j {
        Some(Json::Number(Some(n), _)) => if n <= u32::MAX {
            Some(n as u32)
        } else {
            None
        },
        _ => None,
    }
}

pub open spec fn text_value(j: Option<Json>) -> Option<Seq<char>> {
    match j {
        Some(Json::Str(s)) => Some(s@),
        _ => None,
    }
}

/// The text of a string, or of a number as serde_json writes it.
pub open spec fn label_value(j: Option<Json>) -> Option<Seq<char>> {
    match j {
        Some(Json::Str(s)) => Some(s@),
        Some(Json::Number(_, t)) => Some(t@),
        _ => None,
    }
}

pub open spec fn flag_value(j: Option<Json>) -> Option<bool> {
    match j {
        Some(Json::Bool(b)) => Some(b),
        _ => None,
    }
}

pub open spec fn array_value(j: Option<Json>) -> Option<Seq<Json>> {
    match j {
        Some(Json::Array(a)) => Some(a@),
        _ => None,
    }
}

fn same_text(a: &str, b: &str) -> (r: bool)
    ensures
        r == (a@ == b@),
{
    let n = a.unicode_len();
    if n != b.unicode_len() {
        return false;
    }
    let mut i: usize = 0;
    while i < n
        invariant
            n == a@.len(),
            n == b@.len(),
            i <= n,
            forall|k: int| 0 <= k < i ==> a@[k] == b@[k],
        decreases n - i,
    {
        if a.get_char(i) != b.get_char(i) {
            return false;
        }
        i = i + 1;
    }
    assert(a@ =~= b@);
    true
}

/// The member `key` of `j`, when `j` is an object that has one.
pub fn lookup<'a>(j: Option<&'a Json>, key: &str) -> (r: Option<&'a Json>)
    ensures
        deref_opt(r) == field(deref_opt(j), key@),
{
    match j {
        Some(Json::Object(f)) => {
            let mut i: usize = 0;
            while i < f.len()
                invariant
                    i <= f.len(),
                    field(deref_opt(j), key@) == member_from(f@, key@, 0),
                    member_from(f@, key@, 0) == member_from(f@, key@, i as int),
                decreases f.len() - i,
            {
                if same_text(f[i].0.as_str(), key) {
                    assert(member_from(f@, key@, i as int) == Some(f@[i as int].1));
                    return Some(&f[i].1);
                }
                i = i + 1;
            }
            None
        },
        _ => None,
    }
}

pub fn u32_of(j: Option<&Json>) -> (r: Option<u32>)
    ensures
        r == u32_value(deref_opt(j)),
{
    match j {
        Some(Json::Number(Some(n), _)) => if *n <= u32::MAX as u64 {
            Some(*n as u32)
        } else {
            None
        },
        _ => None,
    }
}

pub fn text_of(j: Option<&Json>) -> (r: Option<String>)
    ensures
        r is Some <==> text_value(deref_opt(j)) is Some,
        r is Some ==> r->0@ == text_value(deref_opt(j))->0,
{
    match j {
        Some(Json::Str(s)) => Some(s.clone()),
        _ => None,
    }
}

pub fn label_of(j: Option<&Json>) -> (r: Option<String>)
    ensures
        r is Some <==> label_value(deref_opt(j)) is Some,
        r is Some ==> r->0@ == label_value(deref_opt(j))->0,
{
    match j {
        Some(Json::Str(s)) => Some(s.clone()),
        Some(Json::Number(_, t)) => Some(t.clone()),
        _ => None,
    }
}

pub fn flag_of(j: Option<&Json>) -> (r: Option<bool>)
    ensures
        r == flag_value(deref_opt(j)),
{
    match j {
        Some(Json::Bool(b)) => Some(*b),
        _ => None,
    }
}

pub fn array_of<'a>(j: Option<&'a Json>) -> (r: Option<&'a Vec<Json>>)
    ensures
        r is Some <==> array_value(deref_opt(j)) is Some,
        r is Some ==> r->0@ == array_value(deref_opt(j))->0,
{
    match j {
        Some(Json::Array(a)) => Some(a),
        _ => None,
    }
}

} // verus!
