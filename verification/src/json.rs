//! Trusted boundary to `serde_json`.
//!
//! The upstream bodies are JSON text; parsing them and walking the
//! parsed document are the only outside computations of the library.
//! Each call stands behind one wrapper here, and each wrapper's
//! contract speaks of an uninterpreted name for what the call
//! returns: parsing and the accessors of `serde_json::Value` are
//! functions of their arguments alone, so the names pin repeated
//! calls to one another without writing out a JSON grammar.

use vstd::prelude::*;

verus! {

#[verifier::external_type_specification]
#[verifier::external_body]
pub struct ExValue(serde_json::Value);

/// The document that JSON text parses to, or nothing when the text is
/// not valid JSON. Names the result of `serde_json::from_str`.
pub uninterp spec fn json_doc(text: Seq<char>) -> Option<serde_json::Value>;

/// The member of an object under a key, or nothing when the value is
/// not an object or lacks the key. Names the result of
/// `serde_json::Value::get` with a string key.
pub uninterp spec fn json_member(v: serde_json::Value, key: Seq<char>) -> Option<serde_json::Value>;

/// The element of an array at an index, or nothing when the value is
/// not an array or the index is out of range. Names the result of
/// `serde_json::Value::get` with a numeric index.
pub uninterp spec fn json_element(v: serde_json::Value, i: int) -> Option<serde_json::Value>;

/// The character sequence a JSON string holds, or nothing when the
/// value is not a string. Names the result of
/// `serde_json::Value::as_str`.
pub uninterp spec fn json_string(v: serde_json::Value) -> Option<Seq<char>>;

/// The boolean a JSON boolean holds, or nothing when the value is not
/// a boolean. Names the result of `serde_json::Value::as_bool`.
pub uninterp spec fn json_truth(v: serde_json::Value) -> Option<bool>;

/// Relies on `serde_json::from_str::<serde_json::Value>`: it parses
/// the text when and only when the text is valid JSON, as a function
/// of the text alone; a failure is carried as its display message.
#[verifier::external_body]
pub(crate) fn parse_json(text: &str) -> (r: Result<serde_json::Value, String>)
    ensures
        r is Ok <==> json_doc(text@) is Some,
        r matches Ok(v) ==> json_doc(text@) == Some(v),
{
    match serde_json::from_str::<serde_json::Value>(text) {
        Ok(v) => Ok(v),
        Err(e) => Err(e.to_string()),
    }
}

/// Relies on `serde_json::Value::get` with a string key: member
/// lookup in an object, a function of the value and the key alone.
#[verifier::external_body]
pub(crate) fn json_get_member<'a>(v: &'a serde_json::Value, key: &str) -> (r: Option<
    &'a serde_json::Value,
>)
    ensures
        r is Some <==> json_member(*v, key@) is Some,
        r matches Some(m) ==> json_member(*v, key@) == Some(*m),
{
    v.get(key)
}

/// Relies on `serde_json::Value::get` with a numeric index: element
/// lookup in an array, a function of the value and the index alone.
#[verifier::external_body]
pub(crate) fn json_get_element<'a>(v: &'a serde_json::Value, i: usize) -> (r: Option<
    &'a serde_json::Value,
>)
    ensures
        r is Some <==> json_element(*v, i as int) is Some,
        r matches Some(m) ==> json_element(*v, i as int) == Some(*m),
{
    v.get(i)
}

/// Relies on `serde_json::Value::as_str`: the held string of a JSON
/// string value, a function of the value alone.
#[verifier::external_body]
pub(crate) fn json_get_str<'a>(v: &'a serde_json::Value) -> (r: Option<&'a str>)
    ensures
        r is Some <==> json_string(*v) is Some,
        r matches Some(s) ==> json_string(*v) == Some(s@),
{
    v.as_str()
}

/// Relies on `serde_json::Value::as_bool`: the held boolean of a JSON
/// boolean value, a function of the value alone.
#[verifier::external_body]
pub(crate) fn json_get_bool(v: &serde_json::Value) -> (r: Option<bool>)
    ensures
        r == json_truth(*v),
{
    v.as_bool()
}

/// The string under a key of an object, when the key is present and
/// its member is a string.
pub open spec fn member_string(v: serde_json::Value, key: Seq<char>) -> Option<Seq<char>> {
    match json_member(v, key) {
        Some(m) => json_string(m),
        None => None,
    }
}

/// The boolean under a key of an object, when the key is present and
/// its member is a boolean.
pub open spec fn member_bool(v: serde_json::Value, key: Seq<char>) -> Option<bool> {
    match json_member(v, key) {
        Some(m) => json_truth(m),
        None => None,
    }
}

} // verus!
