//! JSON values as serde_json reads them, and the field lookups that the frame decoder
//! makes on them.
use crate::external::parsed_uuid;
use crate::external::parse_uuid;
use vstd::prelude::*;

verus! {

#[verifier::external_type_specification]
#[verifier::external_body]
pub struct ExSerdeJsonValue(serde_json::Value);

/// A JSON value. A number is held by what serde_json's `Number::as_i64` and
/// `Number::as_u64` give for it (both `None` for a number with a fraction or an exponent).
pub enum JsonValue {
    Null,
    Bool(bool),
    Number { as_i64: Option<i64>, as_u64: Option<u64> },
    Str(String),
    Array(Vec<JsonValue>),
    Object(Vec<(String, JsonValue)>),
}

/// What `serde_json::from_str::<serde_json::Value>` reads from a text, or `None` where it
/// fails.
pub uninterp spec fn parsed_json(s: Seq<char>) -> Option<JsonValue>;

/// Copies a serde_json value into a `JsonValue`, one variant for one.
#[verifier::external_body]
fn json_of(v: &serde_json::Value) -> JsonValue {
    match v {
        serde_json::Value::Null => JsonValue::Null,
        serde_json::Value::Bool(b) => JsonValue::Bool(*b),
        serde_json::Value::Number(n) => JsonValue::Number { as_i64: n.as_i64(), as_u64: n.as_u64() },
        serde_json::Value::String(s) => JsonValue::Str(s.clone()),
        serde_json::Value::Array(a) => JsonValue::Array(a.iter().map(json_of).collect()),
        serde_json::Value::Object(m) => JsonValue::Object(m.iter().map(|(k, x)| (k.clone(), json_of(x))).collect()),
    }
}

/// Calls `serde_json::from_str::<serde_json::Value>`; its result is named `parsed_json`.
#[verifier::external_body]
pub fn parse_json(s: &str) -> (r: Option<JsonValue>)
    ensures
        r == parsed_json(s@),
{
    match serde_json::from_str::<serde_json::Value>(s) {
        Ok(v) => Some(json_of(&v)),
        Err(_) => None,
    }
}

/// The text that `serde_json::to_string` writes for a value.
pub uninterp spec fn json_text(v: JsonValue) -> Seq<char>;

/// Copies a `JsonValue` into a serde_json value, one variant for one (a number by the
/// integer it holds).
#[verifier::external_body]
fn value_of(v: &JsonValue) -> serde_json::Value {
    match v {
        JsonValue::Null => serde_json::Value::Null,
        JsonValue::Bool(b) => serde_json::Value::Bool(*b),
        JsonValue::Number { as_i64: Some(i), .. } => serde_json::Value::from(*i),
        JsonValue::Number { as_u64: Some(u), .. } => serde_json::Value::from(*u),
        JsonValue::Number { .. } => serde_json::Value::Null,
        JsonValue::Str(s) => serde_json::Value::String(s.clone()),
        JsonValue::Array(a) => serde_json::Value::Array(a.iter().map(value_of).collect()),
        JsonValue::Object(es) => serde_json::Value::Object(es.iter().map(|(k, x)| (k.clone(), value_of(x))).collect()),
    }
}

/// Calls `serde_json::to_string` on a value; its text is named `json_text`. Writing a
/// value does not fail: its keys are strings.
#[verifier::external_body]
pub fn to_json_text(v: &JsonValue) -> (r: String)
    ensures
        r@ == json_text(*v),
{
    match serde_json::to_string(&value_of(v)) {
        Ok(t) => t,
        Err(_) => String::new(),
    }
}

/// The value of the first entry of `es` whose key is `k`.
pub open spec fn lookup(es: Seq<(String, JsonValue)>, k: Seq<char>) -> Option<JsonValue>
    decreases es.len(),
{
    if es.len() == 0 {
        None
    } else if es[0].0@ == k {
        Some(es[0].1)
    } else {
        lookup(es.drop_first(), k)
    }
}

/// serde_json's `Value::get` with a key: the field `k` of an object.
pub open spec fn get(v: JsonValue, k: Seq<char>) -> Option<JsonValue> {
    match v {
        JsonValue::Object(es) => lookup(es@, k),
        _ => None,
    }
}

pub open spec fn str_of(o: Option<JsonValue>) -> Option<Seq<char>> {
    match o {
        Some(JsonValue::Str(s)) => Some(s@),
        _ => None,
    }
}

pub open spec fn i64_of(o: Option<JsonValue>) -> Option<i64> {
    match o {
        Some(JsonValue::Number { as_i64, .. }) => as_i64,
        _ => None,
    }
}

pub open spec fn u64_of(o: Option<JsonValue>) -> Option<u64> {
    match o {
        Some(JsonValue::Number { as_u64, .. }) => as_u64,
        _ => None,
    }
}

pub open spec fn bool_of(o: Option<JsonValue>) -> Option<bool> {
    match o {
        Some(JsonValue::Bool(b)) => Some(b),
        _ => None,
    }
}

pub open spec fn uuid_of(o: Option<JsonValue>) -> Option<u128> {
    match str_of(o) {
        Some(s) => parsed_uuid(s),
        None => None,
    }
}

/// The elements of an array value (none for any other value).
pub open spec fn items_of(o: Option<JsonValue>) -> Seq<JsonValue> {
    match o {
        Some(JsonValue::Array(a)) => a@,
        _ => Seq::empty(),
    }
}

pub open spec fn str_at(v: JsonValue, k: Seq<char>) -> Option<Seq<char>> {
    str_of(get(v, k))
}

pub open spec fn i64_at(v: JsonValue, k: Seq<char>) -> Option<i64> {
    i64_of(get(v, k))
}

pub open spec fn u64_at(v: JsonValue, k: Seq<char>) -> Option<u64> {
    u64_of(get(v, k))
}

pub open spec fn bool_at(v: JsonValue, k: Seq<char>) -> Option<bool> {
    bool_of(get(v, k))
}

pub open spec fn uuid_at(v: JsonValue, k: Seq<char>) -> Option<u128> {
    uuid_of(get(v, k))
}

/// A string option seen as its text.
pub open spec fn text_view(o: Option<String>) -> Option<Seq<char>> {
    match o {
        Some(s) => Some(s@),
        None => None,
    }
}

pub fn text_is(a: &String, k: &str) -> (r: bool)
    ensures
        r == (a@ == k@),
{
    *a == String::from_str(k)
}

/// An optional reference seen as the value it refers to.
pub open spec fn opt(o: Option<&JsonValue>) -> Option<JsonValue> {
    match o {
        Some(x) => Some(*x),
        None => None,
    }
}

/// The field `k` of `v`.
pub fn field<'a>(v: &'a JsonValue, k: &str) -> (r: Option<&'a JsonValue>)
    ensures
        opt(r) == get(*v, k@),
{
    match v {
        JsonValue::Object(es) => {
            let mut i: usize = 0;
            assert(es@.subrange(0, es@.len() as int) =~= es@);
            while i < es.len()
                invariant
                    i <= es@.len(),
                    get(*v, k@) == lookup(es@, k@),
                    lookup(es@, k@) == lookup(es@.subrange(i as int, es@.len() as int), k@),
                decreases es.len() - i,
            {
                let ghost rest = es@.subrange(i as int, es@.len() as int);
                assert(rest.len() > 0 && rest[0] == es@[i as int]);
                if text_is(&es[i].0, k) {
                    assert(lookup(rest, k@) == Some(es@[i as int].1));
                    let r = Some(&es[i].1);
                    return r;
                }
                assert(rest.drop_first() =~= es@.subrange(i + 1, es@.len() as int));
                i = i + 1;
            }
            None
        },
        _ => None,
    }
}

/// `as_str` of an optional value, as an owned string.
pub fn text_of(o: Option<&JsonValue>) -> (r: Option<String>)
    ensures
        text_view(r) == str_of(opt(o)),
{
    match o {
        Some(JsonValue::Str(s)) => Some(s.clone()),
        _ => None,
    }
}

pub fn i64_in(o: Option<&JsonValue>) -> (r: Option<i64>)
    ensures
        r == i64_of(opt(o)),
{
    match o {
        Some(JsonValue::Number { as_i64, .. }) => *as_i64,
        _ => None,
    }
}

pub fn u64_in(o: Option<&JsonValue>) -> (r: Option<u64>)
    ensures
        r == u64_of(opt(o)),
{
    match o {
        Some(JsonValue::Number { as_u64, .. }) => *as_u64,
        _ => None,
    }
}

pub fn bool_in(o: Option<&JsonValue>) -> (r: Option<bool>)
    ensures
        r == bool_of(opt(o)),
{
    match o {
        Some(JsonValue::Bool(b)) => Some(*b),
        _ => None,
    }
}

pub fn uuid_in(o: Option<&JsonValue>) -> (r: Option<u128>)
    ensures
        r == uuid_of(opt(o)),
{
    match o {
        Some(JsonValue::Str(s)) => parse_uuid(s.as_str()),
        _ => None,
    }
}

/// The elements of an optional array value.
pub fn items_in<'a>(o: Option<&'a JsonValue>) -> (r: &'a [JsonValue])
    ensures
        r@ == items_of(opt(o)),
{
    match o {
        Some(JsonValue::Array(a)) => a.as_slice(),
        _ => &[],
    }
}

/// The text field `k` of `v`.
pub fn text_field(v: &JsonValue, k: &str) -> (r: Option<String>)
    ensures
        text_view(r) == str_at(*v, k@),
{
    text_of(field(v, k))
}

pub fn i64_field(v: &JsonValue, k: &str) -> (r: Option<i64>)
    ensures
        r == i64_at(*v, k@),
{
    i64_in(field(v, k))
}

pub fn u64_field(v: &JsonValue, k: &str) -> (r: Option<u64>)
    ensures
        r == u64_at(*v, k@),
{
    u64_in(field(v, k))
}

pub fn bool_field(v: &JsonValue, k: &str) -> (r: Option<bool>)
    ensures
        r == bool_at(*v, k@),
{
    bool_in(field(v, k))
}

/// The field `k` of `v` read as a UUID.
pub fn uuid_field(v: &JsonValue, k: &str) -> (r: Option<u128>)
    ensures
        r == uuid_at(*v, k@),
{
    uuid_in(field(v, k))
}

/// `out` is what a `filter_map` over `xs` gives: one value for each element on which
/// `ok` holds, in order, related to it by `rel`.
pub open spec fn kept<A, B>(xs: Seq<A>, ok: spec_fn(A) -> bool, rel: spec_fn(A, B) -> bool, out: Seq<B>) -> bool
    decreases xs.len(),
{
    if xs.len() == 0 {
        out.len() == 0
    } else if ok(xs.last()) {
        out.len() > 0 && rel(xs.last(), out.last()) && kept(xs.drop_last(), ok, rel, out.drop_last())
    } else {
        kept(xs.drop_last(), ok, rel, out)
    }
}

/// One more step of a `filter_map`.
pub proof fn lemma_kept_step<A, B>(
    xs: Seq<A>,
    ok: spec_fn(A) -> bool,
    rel: spec_fn(A, B) -> bool,
    out: Seq<B>,
    i: int,
    r: Option<B>,
)
    requires
        0 <= i < xs.len(),
        kept(xs.take(i), ok, rel, out),
        r is Some <==> ok(xs[i]),
        r matches Some(b) ==> rel(xs[i], b),
    ensures
        kept(xs.take(i + 1), ok, rel, match r { Some(b) => out.push(b), None => out }),
{
    assert(xs.take(i + 1).drop_last() =~= xs.take(i));
    assert(xs.take(i + 1).last() == xs[i]);
    if let Some(b) = r {
        assert(out.push(b).drop_last() =~= out);
    }
}

pub proof fn lemma_kept_start<A, B>(xs: Seq<A>, ok: spec_fn(A) -> bool, rel: spec_fn(A, B) -> bool)
    ensures
        kept(xs.take(0), ok, rel, Seq::<B>::empty()),
{
}

pub proof fn lemma_kept_all<A, B>(xs: Seq<A>, ok: spec_fn(A) -> bool, rel: spec_fn(A, B) -> bool, out: Seq<B>)
    requires
        kept(xs.take(xs.len() as int), ok, rel, out),
    ensures
        kept(xs, ok, rel, out),
{
    assert(xs.take(xs.len() as int) =~= xs);
}

} // verus!
