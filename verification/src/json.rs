use vstd::prelude::*;
use crate::text::{str_eq, push_int, int_text};

verus! {

/// A JSON number, by the three kinds that `serde_json` keeps apart.
#[derive(Debug)]
pub enum JsonNum {
    PosInt(u64),
    NegInt(i64),
    /// A number with a fraction or an exponent; its value is not read here.
    Float,
}

/// A parsed JSON document.
#[derive(Debug)]
pub enum Json {
    Null,
    Bool(bool),
    Num(JsonNum),
    Str(String),
    Array(Vec<Json>),
    /// The members of an object, each key once.
    Object(Vec<(String, Json)>),
}

/// The value of member `k` among `es`, the first one with that key.
pub open spec fn entry_value(es: Seq<(String, Json)>, k: Seq<char>) -> Option<Json>
    decreases es.len(),
{
    if es.len() == 0 {
        None
    } else if es[0].0@ == k {
        Some(es[0].1)
    } else {
        entry_value(es.drop_first(), k)
    }
}

/// `Value::get` with a key: the member `k` of an object, nothing for other values.
pub open spec fn member(v: Json, k: Seq<char>) -> Option<Json> {
    match v {
        Json::Object(es) => entry_value(es@, k),
        _ => None,
    }
}

/// `Value::pointer` along the member names `path` (no name here is a number, so
/// arrays never lead anywhere).
pub open spec fn at_path(v: Json, path: Seq<Seq<char>>) -> Option<Json>
    decreases path.len(),
{
    if path.len() == 0 {
        Some(v)
    } else {
        match member(v, path[0]) {
            Some(x) => at_path(x, path.drop_first()),
            None => None,
        }
    }
}

/// `Value::as_str`.
pub open spec fn as_str(v: Json) -> Option<Seq<char>> {
    match v {
        Json::Str(s) => Some(s@),
        _ => None,
    }
}

/// `Value::as_i64`.
pub open spec fn as_i64(v: Json) -> Option<i64> {
    match v {
        Json::Num(JsonNum::PosInt(u)) => if u <= i64::MAX { Some(u as i64) } else { None },
        Json::Num(JsonNum::NegInt(i)) => Some(i),
        _ => None,
    }
}

/// `v[k].as_i64()`: the integer member `k`, if there is one.
pub open spec fn member_i64(v: Json, k: Seq<char>) -> Option<i64> {
    match member(v, k) {
        Some(x) => as_i64(x),
        None => None,
    }
}

/// `v.get(k).and_then(as_str)`: the text member `k`, if there is one.
pub open spec fn member_str(v: Json, k: Seq<char>) -> Option<Seq<char>> {
    match member(v, k) {
        Some(x) => as_str(x),
        None => None,
    }
}

/// The text of a leaf as the user lookup reads it: a non-empty string, or an
/// integer in decimal.
pub open spec fn leaf_text(v: Json) -> Option<Seq<char>> {
    match v {
        Json::Str(s) => if s@.len() > 0 { Some(s@) } else { None },
        Json::Num(JsonNum::PosInt(u)) => Some(int_text(u as int)),
        Json::Num(JsonNum::NegInt(i)) => Some(int_text(i as int)),
        _ => None,
    }
}

fn entry_lookup<'a>(es: &'a Vec<(String, Json)>, k: &str) -> (r: Option<&'a Json>)
    ensures
        r is Some <==> entry_value(es@, k@) is Some,
        r is Some ==> *r->0 == entry_value(es@, k@)->0,
{
    let mut i: usize = 0;
    assert(es@.subrange(0, es@.len() as int) == es@);
    while i < es.len()
        invariant
            i <= es@.len(),
            entry_value(es@, k@) == entry_value(es@.subrange(i as int, es@.len() as int), k@),
        decreases es@.len() - i,
    {
        let ghost rest = es@.subrange(i as int, es@.len() as int);
        assert(rest.drop_first() == es@.subrange(i + 1, es@.len() as int));
        if str_eq(es[i].0.as_str(), k) {
            return Some(&es[i].1);
        }
        i = i + 1;
    }
    None
}

/// `Value::get` with a key.
pub fn get_member<'a>(v: &'a Json, k: &str) -> (r: Option<&'a Json>)
    ensures
        r is Some <==> member(*v, k@) is Some,
        r is Some ==> *r->0 == member(*v, k@)->0,
{
    match v {
        Json::Object(es) => entry_lookup(es, k),
        _ => None,
    }
}

/// `Value::as_i64`.
pub fn json_i64(v: &Json) -> (r: Option<i64>)
    ensures
        r == as_i64(*v),
{
    match v {
        Json::Num(JsonNum::PosInt(u)) => if *u <= 0x7fff_ffff_ffff_ffffu64 { Some(*u as i64) } else { None },
        Json::Num(JsonNum::NegInt(i)) => Some(*i),
        _ => None,
    }
}

/// `Value::as_str`, as an owned string.
pub fn json_str(v: &Json) -> (r: Option<String>)
    ensures
        r is Some <==> as_str(*v) is Some,
        r is Some ==> r->0@ == as_str(*v)->0,
{
    match v {
        Json::Str(s) => Some(s.clone()),
        _ => None,
    }
}

/// `v[k].as_i64()`.
pub fn get_i64(v: &Json, k: &str) -> (r: Option<i64>)
    ensures
        r == member_i64(*v, k@),
{
    match get_member(v, k) {
        Some(x) => json_i64(x),
        None => None,
    }
}

/// `v.get(k).and_then(Value::as_str)`.
pub fn get_str(v: &Json, k: &str) -> (r: Option<String>)
    ensures
        r is Some <==> member_str(*v, k@) is Some,
        r is Some ==> r->0@ == member_str(*v, k@)->0,
{
    match get_member(v, k) {
        Some(x) => json_str(x),
        None => None,
    }
}

/// The text of a leaf (see `leaf_text`).
pub fn leaf(v: &Json) -> (r: Option<String>)
    ensures
        r is Some <==> leaf_text(*v) is Some,
        r is Some ==> r->0@ == leaf_text(*v)->0,
{
    match v {
        Json::Str(s) => if !s.as_str().is_empty() { Some(s.clone()) } else { None },
        Json::Num(JsonNum::PosInt(u)) => {
            let mut t = String::new();
            push_int(&mut t, *u as i128);
            Some(t)
        },
        Json::Num(JsonNum::NegInt(i)) => {
            let mut t = String::new();
            push_int(&mut t, *i as i128);
            Some(t)
        },
        _ => None,
    }
}

/// The string member `k` itself, if there is one.
pub open spec fn member_string(v: Json, k: Seq<char>) -> Option<String> {
    match member(v, k) {
        Some(Json::Str(s)) => Some(s),
        _ => None,
    }
}

/// The string member `k`, copied (see `member_string`).
pub fn get_string(v: &Json, k: &str) -> (r: Option<String>)
    ensures
        r == member_string(*v, k@),
{
    match get_member(v, k) {
        Some(Json::Str(s)) => Some(s.clone()),
        _ => None,
    }
}

} // verus!
