//! What the library asks of the JSON parser and printer.

use vstd::prelude::*;

verus! {

/// The text value under `key` in the JSON object that `text` holds, as
/// `serde_json` reads it; `None` where `text` is no JSON, no object, or has no
/// text under that key.
pub uninterp spec fn json_text_field(text: Seq<char>, key: Seq<char>) -> Option<Seq<char>>;

/// The items of the array under `outer`, then `inner`, in the JSON document
/// that `text` holds, each as JSON text and in the array's order. The outer
/// `None` stands for a text that is no JSON, the inner one for a document
/// without an array at that place.
pub uninterp spec fn json_list_at(text: Seq<char>, outer: Seq<char>, inner: Seq<char>) -> Option<
    Option<Seq<Seq<char>>>,
>;

/// A text as a JSON string literal: in double quotes, with the escapes that
/// `serde_json` writes.
pub uninterp spec fn json_quoted(text: Seq<char>) -> Seq<char>;

/// The views of a sequence of texts, in order.
pub open spec fn texts_view(texts: Seq<String>) -> Seq<Seq<char>> {
    texts.map_values(|t: String| t@)
}

/// The view of the outcome of reading a list.
pub open spec fn list_view(items: Option<Option<Vec<String>>>) -> Option<Option<Seq<Seq<char>>>> {
    match items {
        None => None,
        Some(None) => Some(None),
        Some(Some(list)) => Some(Some(texts_view(list@))),
    }
}

/// Parses `text` with `serde_json::from_str` and reads the value under `key`
/// with `Value`'s index operator and `Value::as_str`. Trusted: the result is
/// a function of the two texts alone.
#[verifier::external_body]
pub(crate) fn text_field(text: &str, key: &str) -> (field: Option<String>)
    ensures
        crate::text::optional_text(field) == json_text_field(text@, key@),
{
    match serde_json::from_str::<serde_json::Value>(text) {
        Ok(value) => value[key].as_str().map(|s| s.to_string()),
        Err(_) => None,
    }
}

/// Parses `text` with `serde_json::from_str`, reads the value under `outer`
/// and then `inner` with `Value`'s index operator, takes it as an array with
/// `Value::as_array` and prints each item with `Value`'s `to_string`.
/// Trusted: the result is a function of the three texts alone.
#[verifier::external_body]
pub(crate) fn list_at(text: &str, outer: &str, inner: &str) -> (items: Option<Option<Vec<String>>>)
    ensures
        list_view(items) == json_list_at(text@, outer@, inner@),
{
    match serde_json::from_str::<serde_json::Value>(text) {
        Ok(value) => Some(
            value[outer][inner].as_array().map(|a| a.iter().map(|v| v.to_string()).collect()),
        ),
        Err(_) => None,
    }
}

/// Prints a text as a JSON string literal, with `serde_json::Value`'s
/// `to_string`. Trusted: the result is a function of the text alone.
#[verifier::external_body]
pub(crate) fn quote(text: &str) -> (literal: String)
    ensures
        literal@ == json_quoted(text@),
{
    serde_json::Value::from(text).to_string()
}

} // verus!
