//! Trusted boundary around `serde_json`: parsing a response body, reading
//! string-typed members out of the parsed document, and encoding a string
//! as a JSON literal.
//!
//! Everything the verified logic knows about a JSON text it learns through
//! the uninterpreted spec functions below; the wrappers connect those names
//! to the real `serde_json` calls.

use vstd::prelude::*;

verus! {

/// Whether `serde_json::from_str` accepts `s` as a JSON document.
pub uninterp spec fn is_json(s: Seq<char>) -> bool;

/// The message of the error `serde_json::from_str` reports when it rejects
/// `s`; the message depends on the text alone.
pub uninterp spec fn parse_error_of(s: Seq<char>) -> Seq<char>;

/// The string value at `key` in the document parsed from `s`, when that
/// document is an object whose `key` member is a JSON string; `None` when
/// the member is absent, not a string, or the document is not an object.
pub uninterp spec fn str_field(s: Seq<char>, key: Seq<char>) -> Option<Seq<char>>;

/// The member at `key` in the document parsed from `s`, re-encoded as
/// compact JSON text; `None` when the document is not an object or has no
/// such member.
pub uninterp spec fn raw_field(s: Seq<char>, key: Seq<char>) -> Option<Seq<char>>;

/// The JSON string-literal encoding of `s`: surrounding quotes plus the
/// escapes JSON requires.
pub uninterp spec fn json_quoted(s: Seq<char>) -> Seq<char>;

#[verifier::external_type_specification]
#[verifier::external_body]
pub struct ExJsonValue(serde_json::Value);

/// A JSON document parsed by `serde_json`, kept together with the exact
/// text it was parsed from; the contracts on field reads speak about that
/// text.
pub(crate) struct JsonDoc {
    text: String,
    value: serde_json::Value,
}

impl JsonDoc {
    /// The text this document was parsed from.
    pub(crate) closed spec fn text_view(&self) -> Seq<char> {
        self.text@
    }
}

/// Relies on `serde_json::from_str::<Value>`: it accepts exactly the valid
/// JSON documents, and both the parsed document and the error message are
/// functions of the text alone.
#[verifier::external_body]
pub(crate) fn parse_json(text: &str) -> (r: Result<JsonDoc, String>)
    ensures
        (r is Ok) == is_json(text@),
        r matches Ok(d) ==> d.text_view() == text@,
        r matches Err(e) ==> e@ == parse_error_of(text@),
{
    match serde_json::from_str::<serde_json::Value>(text) {
        Ok(value) => Ok(JsonDoc { text: text.to_string(), value }),
        Err(e) => Err(e.to_string()),
    }
}

/// Relies on `serde_json::Value::get` and `Value::as_str`: `get` returns an
/// object's member by key (`None` on non-objects and absent keys), and
/// `as_str` returns the contained string exactly for JSON strings.
#[verifier::external_body]
pub(crate) fn doc_str_field(doc: &JsonDoc, key: &str) -> (r: Option<String>)
    ensures
        (r is Some) == (str_field(doc.text_view(), key@) is Some),
        r matches Some(v) ==> Some(v@) == str_field(doc.text_view(), key@),
{
    match doc.value.get(key) {
        Some(v) => match v.as_str() {
            Some(s) => Some(s.to_string()),
            None => None,
        },
        None => None,
    }
}

/// Relies on `serde_json::Value::get` and `Value`'s `Display`, which
/// serializes the value as compact JSON text.
#[verifier::external_body]
pub(crate) fn doc_raw_field(doc: &JsonDoc, key: &str) -> (r: Option<String>)
    ensures
        (r is Some) == (raw_field(doc.text_view(), key@) is Some),
        r matches Some(v) ==> Some(v@) == raw_field(doc.text_view(), key@),
{
    match doc.value.get(key) {
        Some(v) => Some(v.to_string()),
        None => None,
    }
}

/// Relies on `serde_json::to_string` on a `&str`, which cannot fail and
/// yields the JSON string-literal encoding of its argument.
#[verifier::external_body]
pub(crate) fn json_quote(s: &str) -> (r: String)
    ensures
        r@ == json_quoted(s@),
{
    serde_json::to_string(s).unwrap_or_default()
}

} // verus!
