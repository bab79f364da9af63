//! Bridge to the JSON deserializer: `serde_json::Value` is carried as an
//! opaque value, and the ghost model [`JsonData`] says what such a value
//! holds, so that the schema model can be verified against the document
//! shape it reads.

use vstd::prelude::*;

verus! {

/// Ghost model of one JSON value, as the accessors below expose it.
pub enum JsonData {
    Null,
    Bool { b: bool },
    /// A JSON number; `ival` is its value when it is an integer representable
    /// as `i64`, and `None` otherwise.
    Num { ival: Option<i64> },
    Str { text: Seq<char> },
    Arr { items: Seq<JsonData> },
    Obj { fields: Map<Seq<char>, JsonData> },
}

#[verifier::external_type_specification]
#[verifier::external_body]
pub struct ExValue(serde_json::Value);

/// What a `serde_json::Value` holds.
pub uninterp spec fn jdata(v: serde_json::Value) -> JsonData;

/// What `serde_json::from_str::<Value>` returns on a given document text:
/// `None` exactly when the deserializer rejects the text (it is not JSON
/// it accepts, e.g. malformed or truncated).
pub uninterp spec fn json_of(s: Seq<char>) -> Option<JsonData>;

/// The models of a sequence of JSON values.
pub open spec fn jseq(s: Seq<serde_json::Value>) -> Seq<JsonData> {
    s.map_values(|v: serde_json::Value| jdata(v))
}

/// Relies on `serde_json::from_str::<Value>`: parses a document, `Ok`
/// exactly when the deserializer accepts the text; the error detail is
/// dropped.
#[verifier::external_body]
pub(crate) fn parse_value(s: &str) -> (r: Option<serde_json::Value>)
    ensures
        r is Some <==> json_of(s@) is Some,
        r matches Some(v) ==> Some(jdata(v)) == json_of(s@),
{
    serde_json::from_str(s).ok()
}

/// Relies on `serde_json::Value::get` with a string index: `Some` exactly on
/// an object that has the key, and returns that key's value.
#[verifier::external_body]
pub(crate) fn j_get<'a>(v: &'a serde_json::Value, key: &str) -> (r: Option<
    &'a serde_json::Value,
>)
    ensures
        r is Some <==> (jdata(*v) matches JsonData::Obj { fields } && fields.contains_key(key@)),
        r matches Some(f) ==> (jdata(*v) matches JsonData::Obj { fields } && jdata(*f)
            == fields[key@]),
{
    v.get(key)
}

/// Relies on `serde_json::Value::is_object`.
#[verifier::external_body]
pub(crate) fn j_is_object(v: &serde_json::Value) -> (r: bool)
    ensures
        r <==> jdata(*v) is Obj,
{
    v.is_object()
}

/// Relies on `serde_json::Value::is_null`.
#[verifier::external_body]
pub(crate) fn j_is_null(v: &serde_json::Value) -> (r: bool)
    ensures
        r <==> jdata(*v) is Null,
{
    v.is_null()
}

/// Relies on `serde_json::Value::as_str`: `Some` exactly on a JSON string,
/// with its text.
#[verifier::external_body]
pub(crate) fn j_as_str<'a>(v: &'a serde_json::Value) -> (r: Option<&'a str>)
    ensures
        r is Some <==> jdata(*v) is Str,
        r matches Some(rs) ==> (jdata(*v) matches JsonData::Str { text } && rs@ == text),
{
    v.as_str()
}

/// Relies on `serde_json::Value::as_array`: `Some` exactly on a JSON array,
/// with its elements in order.
#[verifier::external_body]
pub(crate) fn j_as_array<'a>(v: &'a serde_json::Value) -> (r: Option<&'a Vec<serde_json::Value>>)
    ensures
        r is Some <==> jdata(*v) is Arr,
        r matches Some(a) ==> (jdata(*v) matches JsonData::Arr { items } && jseq(a@) == items),
{
    v.as_array()
}

/// Relies on `serde_json::Value::as_i64`: `Some` exactly on a JSON number
/// that is an integer representable as `i64`.
#[verifier::external_body]
pub(crate) fn j_as_i64(v: &serde_json::Value) -> (r: Option<i64>)
    ensures
        jdata(*v) matches JsonData::Num { ival } ==> r == ival,
        !(jdata(*v) is Num) ==> r is None,
{
    v.as_i64()
}

/// Relies on `serde_json::Value::clone`: the copy holds the same data.
#[verifier::external_body]
pub(crate) fn j_clone(v: &serde_json::Value) -> (r: serde_json::Value)
    ensures
        jdata(r) == jdata(*v),
{
    v.clone()
}

} // verus!
