//! Trusted access to JSON text through serde_json.
//!
//! Every external response the engine reads is JSON, treated as untrusted
//! input: each step of looking into it returns an explicit absence instead
//! of failing.  The functions here pass JSON around as plain text — each one
//! parses its input, takes a single step into the value, and prints the
//! result back as JSON text — so that contracts can speak of them as pure
//! functions of strings.  What serde_json computes is given names; no claim
//! is made about any concrete string, and the callers' own logic is verified
//! on top of the names.

use vstd::prelude::*;

verus! {

/// The value under `key` in the JSON object that `text` parses to, printed
/// back as JSON text; `None` where `text` is not a JSON object holding `key`.
pub uninterp spec fn json_field(text: Seq<char>, key: Seq<char>) -> Option<Seq<char>>;

/// The element at `index` in the JSON array that `text` parses to, printed
/// back as JSON text; `None` where `text` is not a JSON array that long.
pub uninterp spec fn json_element(text: Seq<char>, index: int) -> Option<Seq<char>>;

/// The string content of the JSON value that `text` parses to; `None` where
/// `text` is not a JSON string.
pub uninterp spec fn json_string(text: Seq<char>) -> Option<Seq<char>>;

/// The boolean the JSON value that `text` parses to holds; `None` where
/// `text` is not a JSON boolean.
pub uninterp spec fn json_bool(text: Seq<char>) -> Option<bool>;

/// Relies on serde_json: `from_str` parses the text (a pure function of it),
/// `Value::get` returns the object member under the key and `None` for
/// anything that is not an object with that key, and `Value`'s display
/// prints the member deterministically as JSON text.
#[verifier::external_body]
pub fn get_field(text: &str, key: &str) -> (r: Option<String>)
    ensures
        r is Some <==> json_field(text@, key@) is Some,
        r matches Some(s) ==> json_field(text@, key@) == Some(s@),
{
    let value: serde_json::Value = serde_json::from_str(text).ok()?;
    let member = value.get(key)?;
    Some(member.to_string())
}

/// Relies on serde_json: `from_str` parses the text, `Value::get` with an
/// index returns the array element there and `None` for anything that is not
/// an array reaching it, and `Value`'s display prints the element back as
/// JSON text.
#[verifier::external_body]
pub fn get_element(text: &str, index: usize) -> (r: Option<String>)
    ensures
        r is Some <==> json_element(text@, index as int) is Some,
        r matches Some(s) ==> json_element(text@, index as int) == Some(s@),
{
    let value: serde_json::Value = serde_json::from_str(text).ok()?;
    let element = value.get(index)?;
    Some(element.to_string())
}

/// Relies on serde_json: `from_str` parses the text and `Value::as_str`
/// returns the content of a JSON string, `None` for every other value.
#[verifier::external_body]
pub fn get_string(text: &str) -> (r: Option<String>)
    ensures
        r is Some <==> json_string(text@) is Some,
        r matches Some(s) ==> json_string(text@) == Some(s@),
{
    let value: serde_json::Value = serde_json::from_str(text).ok()?;
    let content = value.as_str()?;
    Some(content.to_string())
}

/// Relies on serde_json: `from_str` parses the text and `Value::as_bool`
/// returns the boolean a JSON `true` or `false` holds, `None` for every
/// other value.
#[verifier::external_body]
pub fn get_bool(text: &str) -> (r: Option<bool>)
    ensures
        r == json_bool(text@),
{
    let value: serde_json::Value = serde_json::from_str(text).ok()?;
    value.as_bool()
}

} // verus!
