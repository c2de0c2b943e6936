use vstd::prelude::*;

verus! {

/// A JSON document as a mathematical value.
pub enum Json {
    Null,
    Bool(bool),
    /// A number, held as the text that serde_json renders for it.
    Number(Seq<char>),
    Text(Seq<char>),
    Array(Seq<Json>),
    Object(Map<Seq<char>, Json>),
}

#[verifier::external_type_specification]
#[verifier::external_body]
pub struct ExJsonValue(serde_json::Value);

#[verifier::external_type_specification]
#[verifier::external_body]
pub struct ExJsonError(serde_json::Error);

/// What a serde_json value holds.
pub uninterp spec fn json_of(v: serde_json::Value) -> Json;

/// The document that serde_json reads from the bytes, if they are one JSON
/// document (surrounding whitespace allowed).
pub uninterp spec fn json_from_bytes(b: Seq<u8>) -> Option<Json>;

/// Relies on serde_json::from_slice: success exactly when the bytes hold one
/// JSON document, which the value then holds; empty input is no document.
#[verifier::external_body]
pub(crate) fn parse_json(b: &[u8]) -> (r: Result<serde_json::Value, serde_json::Error>)
    ensures
        r is Ok <==> json_from_bytes(b@) is Some,
        r matches Ok(v) ==> json_from_bytes(b@) == Some(json_of(v)),
        b@.len() == 0 ==> r is Err,
{
    serde_json::from_slice::<serde_json::Value>(b)
}

/// Relies on serde_json::Value::get with a string index: the member of an
/// object under that key, `None` for a missing key or a value of another kind.
#[verifier::external_body]
pub(crate) fn json_get<'a>(v: &'a serde_json::Value, key: &str) -> (r: Option<&'a serde_json::Value>)
    ensures
        match json_of(*v) {
            Json::Object(m) => if m.contains_key(key@) {
                r matches Some(x) && json_of(*x) == m[key@]
            } else {
                r is None
            },
            _ => r is None,
        },
{
    v.get(key)
}

/// Relies on serde_json::Value::as_str: the text of a string value.
#[verifier::external_body]
pub(crate) fn json_str(v: &serde_json::Value) -> (r: Option<&str>)
    ensures
        match json_of(*v) {
            Json::Text(s) => r matches Some(x) && x@ == s,
            _ => r is None,
        },
{
    v.as_str()
}

/// Relies on serde_json::Value::as_array: the items of an array value, in order.
#[verifier::external_body]
pub(crate) fn json_array(v: &serde_json::Value) -> (r: Option<&Vec<serde_json::Value>>)
    ensures
        match json_of(*v) {
            Json::Array(items) => r matches Some(a) && a@.len() == items.len() && (forall|i: int|
                0 <= i < items.len() ==> json_of(#[trigger] a@[i]) == items[i]),
            _ => r is None,
        },
{
    v.as_array()
}

/// Relies on serde_json's rendering of a number value (`Number`'s `Display`).
#[verifier::external_body]
pub(crate) fn json_number_text(v: &serde_json::Value) -> (r: Option<String>)
    ensures
        match json_of(*v) {
            Json::Number(t) => r matches Some(x) && x@ == t,
            _ => r is None,
        },
{
    match v {
        serde_json::Value::Number(n) => Some(n.to_string()),
        _ => None,
    }
}

/// Relies on serde_json::Value::is_object: whether the value is an object.
#[verifier::external_body]
pub(crate) fn json_is_object(v: &serde_json::Value) -> (r: bool)
    ensures
        r == (json_of(*v) is Object),
{
    v.is_object()
}

/// The text held under `key` in an object, if there is text there.
pub open spec fn text_member(j: Json, key: Seq<char>) -> Option<Seq<char>> {
    match j {
        Json::Object(m) => if m.contains_key(key) {
            match m[key] {
                Json::Text(s) => Some(s),
                _ => None,
            }
        } else {
            None
        },
        _ => None,
    }
}

/// The rendering of the number held under `key` in an object, if any.
pub open spec fn number_member(j: Json, key: Seq<char>) -> Option<Seq<char>> {
    match j {
        Json::Object(m) => if m.contains_key(key) {
            match m[key] {
                Json::Number(s) => Some(s),
                _ => None,
            }
        } else {
            None
        },
        _ => None,
    }
}

pub open spec fn opt_string_view(o: Option<String>) -> Option<Seq<char>> {
    match o {
        Some(s) => Some(s@),
        None => None,
    }
}

/// Reads the text under `key`, copying it out.
pub(crate) fn text_member_of(v: &serde_json::Value, key: &str) -> (r: Option<String>)
    ensures
        opt_string_view(r) == text_member(json_of(*v), key@),
{
    match json_get(v, key) {
        Some(x) => match json_str(x) {
            Some(s) => Some(s.to_owned()),
            None => None,
        },
        None => None,
    }
}

/// Reads the rendering of the number under `key`.
pub(crate) fn number_member_of(v: &serde_json::Value, key: &str) -> (r: Option<String>)
    ensures
        opt_string_view(r) == number_member(json_of(*v), key@),
{
    match json_get(v, key) {
        Some(x) => json_number_text(x),
        None => None,
    }
}

} // verus!
