//! JSON documents: recipe and plugin output, agent transcripts and
//! settings files. Parsing and pretty-printing are
//! serde_json's; everything that reads a document is verified here.

use vstd::prelude::*;

use serde_json::Value;

use crate::text::str_eq;

verus! {

/// A JSON number, split the way `serde_json::Number` answers `as_u64` /
/// `as_i64`. Any other number (a float) is kept as the text serde_json
/// writes for it, and written back from that text.
#[derive(Clone, Debug, PartialEq, Eq)]
pub enum JsonNumber {
    /// Fits in `u64`.
    PosInt(u64),
    /// Negative and fits in `i64`.
    NegInt(i64),
    /// Anything else, by its text.
    Float(String),
}

/// A JSON number as a mathematical value.
pub enum JsonNumberView {
    PosInt(u64),
    NegInt(i64),
    Float(Seq<char>),
}

pub open spec fn number_view(n: JsonNumber) -> JsonNumberView {
    match n {
        JsonNumber::PosInt(u) => JsonNumberView::PosInt(u),
        JsonNumber::NegInt(i) => JsonNumberView::NegInt(i),
        JsonNumber::Float(t) => JsonNumberView::Float(t@),
    }
}

/// A parsed JSON document. Object members keep the order in which the
/// parser handed them out; keys are unique.
#[derive(Debug)]
pub enum JsonValue {
    Null,
    Bool(bool),
    Number(JsonNumber),
    Str(String),
    Array(Vec<JsonValue>),
    Object(Vec<(String, JsonValue)>),
}

#[verifier::external_type_specification]
#[verifier::external_body]
pub struct ExSerdeJsonValue(serde_json::Value);

/// What `serde_json::from_str::<serde_json::Value>` makes of a text: the
/// document in the library's own shape, or the parser's error message.
pub uninterp spec fn json_parse_result(text: Seq<char>) -> Result<JsonValue, Seq<char>>;

/// The document a text holds, if it holds one.
pub open spec fn parsed_json(text: Seq<char>) -> Option<JsonValue> {
    match json_parse_result(text) {
        Ok(v) => Some(v),
        Err(_) => None,
    }
}

/// What `serde_json::to_string_pretty` writes for a document.
pub uninterp spec fn pretty_json(value: JsonView) -> Seq<char>;

/// Copies a `serde_json::Value` into the library's shape, member order and
/// all. Nothing is promised of the copy beyond what [`parse_json`] states.
#[verifier::external_body]
fn from_serde(v: &Value) -> JsonValue {
    match v {
        Value::Null => JsonValue::Null,
        Value::Bool(b) => JsonValue::Bool(*b),
        Value::Number(n) => JsonValue::Number(match (n.as_u64(), n.as_i64()) {
            (Some(u), _) => JsonNumber::PosInt(u),
            (None, Some(i)) => JsonNumber::NegInt(i),
            _ => JsonNumber::Float(n.to_string()),
        }),
        Value::String(s) => JsonValue::Str(s.clone()),
        Value::Array(a) => JsonValue::Array(a.iter().map(from_serde).collect()),
        Value::Object(m) => JsonValue::Object(
            m.iter().map(|(k, x)| (k.clone(), from_serde(x))).collect(),
        ),
    }
}

/// Copies a document into a `serde_json::Value` for printing; a float is
/// read back from its text (text that is no number becomes `null`).
/// Nothing is promised of the copy beyond what [`to_pretty_json`] states.
#[verifier::external_body]
fn to_serde(v: &JsonValue) -> Value {
    match v {
        JsonValue::Null => Value::Null,
        JsonValue::Bool(b) => Value::Bool(*b),
        JsonValue::Number(JsonNumber::PosInt(u)) => Value::from(*u),
        JsonValue::Number(JsonNumber::NegInt(i)) => Value::from(*i),
        JsonValue::Number(JsonNumber::Float(t)) => t.parse().map(Value::Number).unwrap_or_default(),
        JsonValue::Str(s) => Value::String(s.clone()),
        JsonValue::Array(a) => Value::Array(a.iter().map(to_serde).collect()),
        JsonValue::Object(m) => Value::Object(
            m.iter().map(|(k, x)| (k.clone(), to_serde(x))).collect(),
        ),
    }
}

/// `serde_json::from_str::<serde_json::Value>`: the document `text` holds,
/// or the `Display` text of the parse error. The contract claims only that
/// the result is a function of the text.
#[verifier::external_body]
pub(crate) fn parse_json_result(text: &str) -> (r: Result<JsonValue, String>)
    ensures
        match r {
            Ok(v) => json_parse_result(text@) == Ok::<JsonValue, Seq<char>>(v),
            Err(e) => json_parse_result(text@) == Err::<JsonValue, Seq<char>>(e@),
        },
{
    match serde_json::from_str::<serde_json::Value>(text) {
        Ok(v) => Ok(from_serde(&v)),
        Err(e) => Err(e.to_string()),
    }
}

/// The document `text` holds, if it holds one.
pub fn parse_json(text: &str) -> (r: Option<JsonValue>)
    ensures
        r == parsed_json(text@),
{
    match parse_json_result(text) {
        Ok(v) => Some(v),
        Err(_) => None,
    }
}

/// `serde_json::to_string_pretty` of the document (two-space indent,
/// members in the order given). The contract claims only that the text is a
/// function of the document.
#[verifier::external_body]
pub(crate) fn to_pretty_json(value: &JsonValue) -> (r: String)
    ensures
        r@ == pretty_json(json_view(*value)),
{
    serde_json::to_string_pretty(&to_serde(value)).unwrap_or_default()
}

/// What `serde_json::to_string` writes for a document.
pub uninterp spec fn compact_json(value: JsonView) -> Seq<char>;

/// `serde_json::to_string` of the document (no whitespace, members in
/// the order given). The contract claims only that the text is a function of
/// the document.
#[verifier::external_body]
pub(crate) fn to_compact_json(value: &JsonValue) -> (r: String)
    ensures
        r@ == compact_json(json_view(*value)),
{
    serde_json::to_string(&to_serde(value)).unwrap_or_default()
}

/// A JSON document as a mathematical value.
pub enum JsonView {
    Null,
    Bool(bool),
    Number(JsonNumberView),
    Str(Seq<char>),
    Array(Seq<JsonView>),
    Object(Seq<(Seq<char>, JsonView)>),
}

pub open spec fn json_view(v: JsonValue) -> JsonView
    decreases v,
{
    match v {
        JsonValue::Null => JsonView::Null,
        JsonValue::Bool(b) => JsonView::Bool(b),
        JsonValue::Number(n) => JsonView::Number(number_view(n)),
        JsonValue::Str(s) => JsonView::Str(s@),
        JsonValue::Array(a) => JsonView::Array(
            Seq::new(a@.len(), |i: int| if 0 <= i < a@.len() { json_view(a@[i]) } else { JsonView::Null }),
        ),
        JsonValue::Object(es) => JsonView::Object(
            Seq::new(
                es@.len(),
                |i: int| if 0 <= i < es@.len() { (es@[i].0@, json_view(es@[i].1)) } else { (Seq::empty(), JsonView::Null) },
            ),
        ),
    }
}

/// The value of the first member named `key`.
pub open spec fn entry_lookup(es: Seq<(String, JsonValue)>, key: Seq<char>) -> Option<JsonValue>
    decreases es.len(),
{
    if es.len() == 0 {
        None
    } else if es[0].0@ == key {
        Some(es[0].1)
    } else {
        entry_lookup(es.drop_first(), key)
    }
}

/// `Value::get(key)`: the member of an object, `None` for anything else.
pub open spec fn json_get(v: JsonValue, key: Seq<char>) -> Option<JsonValue> {
    match v {
        JsonValue::Object(es) => entry_lookup(es@, key),
        _ => None,
    }
}

/// `get(key)` chained through an optional value.
pub open spec fn get_in(v: Option<JsonValue>, key: Seq<char>) -> Option<JsonValue> {
    match v {
        Some(x) => json_get(x, key),
        None => None,
    }
}

/// `and_then(Value::as_str)`.
pub open spec fn str_of(v: Option<JsonValue>) -> Option<Seq<char>> {
    match v {
        Some(JsonValue::Str(s)) => Some(s@),
        _ => None,
    }
}

/// `and_then(Value::as_u64)`.
pub open spec fn u64_of(v: Option<JsonValue>) -> Option<u64> {
    match v {
        Some(JsonValue::Number(JsonNumber::PosInt(u))) => Some(u),
        _ => None,
    }
}

/// `and_then(Value::as_bool)`.
pub open spec fn bool_of(v: Option<JsonValue>) -> Option<bool> {
    match v {
        Some(JsonValue::Bool(b)) => Some(b),
        _ => None,
    }
}

/// `and_then(Value::as_array)`.
pub open spec fn array_of(v: Option<JsonValue>) -> Option<Seq<JsonValue>> {
    match v {
        Some(JsonValue::Array(a)) => Some(a@),
        _ => None,
    }
}

impl JsonValue {
    /// `Value::get(key)`.
    pub fn get(&self, key: &str) -> (r: Option<&JsonValue>)
        ensures
            match r {
                Some(x) => json_get(*self, key@) == Some(*x),
                None => json_get(*self, key@) is None,
            },
    {
        match self {
            JsonValue::Object(es) => {
                let n = es.len();
                let mut i: usize = 0;
                assert(es@.skip(0) =~= es@);
                while i < n
                    invariant
                        n == es@.len(),
                        i <= n,
                        json_get(*self, key@) == entry_lookup(es@, key@),
                        entry_lookup(es@, key@) == entry_lookup(es@.skip(i as int), key@),
                    decreases n - i,
                {
                    assert(es@.skip(i as int)[0] == es@[i as int]);
                    assert(es@.skip(i as int).drop_first() =~= es@.skip(i + 1));
                    if str_eq(es[i].0.as_str(), key) {
                        return Some(&es[i].1);
                    }
                    i += 1;
                }
                None
            },
            _ => None,
        }
    }

    /// `Value::as_str`.
    pub fn as_str(&self) -> (r: Option<&str>)
        ensures
            match r {
                Some(s) => str_of(Some(*self)) == Some(s@),
                None => str_of(Some(*self)) is None,
            },
    {
        match self {
            JsonValue::Str(s) => Some(s.as_str()),
            _ => None,
        }
    }

    /// `Value::as_u64`.
    pub fn as_u64(&self) -> (r: Option<u64>)
        ensures
            r == u64_of(Some(*self)),
    {
        match self {
            JsonValue::Number(JsonNumber::PosInt(u)) => Some(*u),
            _ => None,
        }
    }

    /// `Value::as_bool`.
    pub fn as_bool(&self) -> (r: Option<bool>)
        ensures
            r == bool_of(Some(*self)),
    {
        match self {
            JsonValue::Bool(b) => Some(*b),
            _ => None,
        }
    }

    /// `Value::as_array`.
    pub fn as_array(&self) -> (r: Option<&Vec<JsonValue>>)
        ensures
            match r {
                Some(a) => array_of(Some(*self)) == Some(a@),
                None => array_of(Some(*self)) is None,
            },
    {
        match self {
            JsonValue::Array(a) => Some(a),
            _ => None,
        }
    }
}

pub open spec fn members_view(es: Seq<(String, JsonValue)>) -> Seq<(Seq<char>, JsonView)> {
    es.map_values(|e: (String, JsonValue)| (e.0@, json_view(e.1)))
}

pub open spec fn items_view(vs: Seq<JsonValue>) -> Seq<JsonView> {
    vs.map_values(|v: JsonValue| json_view(v))
}

/// An object of the given members, in order.
pub fn json_object(es: Vec<(String, JsonValue)>) -> (r: JsonValue)
    ensures
        json_view(r) == JsonView::Object(members_view(es@)),
{
    let r = JsonValue::Object(es);
    proof {
        if let JsonView::Object(got) = json_view(r) {
            assert(got =~= members_view(es@));
        }
    }
    r
}

/// An array of the given items, in order.
pub fn json_array(vs: Vec<JsonValue>) -> (r: JsonValue)
    ensures
        json_view(r) == JsonView::Array(items_view(vs@)),
{
    let r = JsonValue::Array(vs);
    proof {
        if let JsonView::Array(got) = json_view(r) {
            assert(got =~= items_view(vs@));
        }
    }
    r
}

/// A string value.
pub fn json_str(s: &str) -> (r: JsonValue)
    ensures
        json_view(r) == JsonView::Str(s@),
{
    JsonValue::Str(s.to_owned())
}

/// A member `key: value`.
pub fn json_member(key: &str, value: JsonValue) -> (r: (String, JsonValue))
    ensures
        r.0@ == key@,
        r.1 == value,
{
    (key.to_owned(), value)
}

} // verus!
