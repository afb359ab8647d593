//! The calls that leave this crate. Each function here hands one call to
//! another crate or to the standard library; its contract is believed, not
//! proved. Where the result of a call is too long to spell out but depends on
//! the arguments alone, it is given a name, and the contract says no more than
//! that the call returns what the name stands for.

use crate::json::{JsonMember, JsonValue, JsonView};
use vstd::prelude::*;
use vstd::utf8::{decode_utf8, valid_utf8};

verus! {

/// `serde_json::Value`, the tree that `serde_json` reads JSON text into.
#[verifier::external_type_specification]
#[verifier::external_body]
pub struct ExJsonTree(serde_json::Value);

/// What `String::from_utf8_lossy` makes of a run of bytes.
pub uninterp spec fn utf8_lossy(bytes: Seq<u8>) -> Seq<char>;

/// What `str::to_lowercase` makes of a text.
pub uninterp spec fn lowercase_of(text: Seq<char>) -> Seq<char>;

/// Whether `char::is_whitespace` holds of a character.
pub uninterp spec fn is_whitespace(c: char) -> bool;

/// The whitespace below U+0080: tab, line feed, vertical tab, form feed,
/// carriage return and space.
pub open spec fn ascii_whitespace(c: char) -> bool {
    c == ' ' || ('\t' <= c && c <= '\r')
}

/// The pairs that `form_urlencoded::parse` reads out of a query string.
pub uninterp spec fn query_pairs(query: Seq<u8>) -> Seq<(Seq<char>, Seq<char>)>;

/// What `serde_json::from_str` makes of a text: the document it holds, or the
/// message of the error that `serde_json` reports.
pub uninterp spec fn json_document(text: Seq<char>) -> Result<JsonView, Seq<char>>;

/// The compact JSON text that `serde_json` writes for a document.
pub uninterp spec fn json_text_of(value: JsonView) -> Seq<char>;

/// The pretty debug text that `serde_json` and `std` write for a document
/// that may be absent.
pub uninterp spec fn json_debug_of(value: Option<JsonView>) -> Seq<char>;

/// `String::push`: the character is appended to the text.
pub assume_specification[ std::string::String::push ](s: &mut std::string::String, ch: char)
    ensures
        final(s)@ == old(s)@.push(ch),
;

/// The present time in whole seconds since the Unix epoch, as
/// `chrono::Utc::now().timestamp()` gives it. Nothing is promised of the
/// number: the clock decides. (`chrono` stops the program if the clock stands
/// before 1970.)
#[verifier::external_body]
pub(crate) fn unix_time_now() -> i64 {
    chrono::Utc::now().timestamp()
}

/// `std::str::from_utf8`: the text that the bytes encode, where they are
/// well-formed UTF-8, and nothing where they are not.
#[verifier::external_body]
pub(crate) fn utf8_text(bytes: &[u8]) -> (r: Option<String>)
    ensures
        match r {
            Some(s) => valid_utf8(bytes@) && s@ == decode_utf8(bytes@),
            None => !valid_utf8(bytes@),
        },
{
    match std::str::from_utf8(bytes) {
        Ok(s) => Some(s.to_string()),
        Err(_) => None,
    }
}

/// `String::from_utf8_lossy`: the text that the bytes encode, with the
/// replacement character for what is not well-formed. Well-formed bytes
/// are decoded as they stand.
#[verifier::external_body]
pub(crate) fn utf8_text_lossy(bytes: &[u8]) -> (r: String)
    ensures
        r@ == utf8_lossy(bytes@),
        valid_utf8(bytes@) ==> r@ == decode_utf8(bytes@),
{
    String::from_utf8_lossy(bytes).into_owned()
}

/// `str::to_lowercase`.
#[verifier::external_body]
pub(crate) fn lowercase(text: &str) -> (r: String)
    ensures
        r@ == lowercase_of(text@),
{
    text.to_lowercase()
}

/// `char::is_whitespace`: whether the character has the Unicode property
/// White_Space. Below U+0080 the characters that have it are tab, line feed,
/// vertical tab, form feed, carriage return and space.
#[verifier::external_body]
pub(crate) fn char_is_whitespace(c: char) -> (r: bool)
    ensures
        r == is_whitespace(c),
        (c as u32) < 0x80 ==> r == ascii_whitespace(c),
{
    c.is_whitespace()
}

/// `form_urlencoded::parse`, with every pair collected: the names and values
/// of a query string in `application/x-www-form-urlencoded` syntax, decoded,
/// in their order. An empty query holds no pair.
#[verifier::external_body]
pub(crate) fn parse_query(query: &[u8]) -> (r: Vec<(String, String)>)
    ensures
        crate::text::pairs_view(r@) == query_pairs(query@),
        query@.len() == 0 ==> r@.len() == 0,
{
    url::form_urlencoded::parse(query).into_owned().collect()
}

/// Turns a `serde_json::Value` into this crate's tree, variant for variant;
/// a number becomes the text that `serde_json` writes for it. Nothing is
/// stated of the result here: `json_parse` names it.
#[verifier::external_body]
fn tree_of(value: serde_json::Value) -> JsonValue {
    match value {
        serde_json::Value::Null => JsonValue::Null,
        serde_json::Value::Bool(b) => JsonValue::Bool(b),
        serde_json::Value::Number(n) => JsonValue::Number(n.to_string()),
        serde_json::Value::String(s) => JsonValue::String(s),
        serde_json::Value::Array(a) => JsonValue::Array(a.into_iter().map(tree_of).collect()),
        serde_json::Value::Object(o) => JsonValue::Object(
            o.into_iter().map(|(name, v)| JsonMember { name, value: tree_of(v) }).collect(),
        ),
    }
}

/// Turns this crate's tree into a `serde_json::Value`, variant for variant; a
/// number is read back from its text, and is `null` where `serde_json` does
/// not take the text for a number.
#[verifier::external_body]
fn value_of(tree: &JsonValue) -> serde_json::Value {
    match tree {
        JsonValue::Null => serde_json::Value::Null,
        JsonValue::Bool(b) => serde_json::Value::Bool(*b),
        JsonValue::Number(n) => serde_json::from_str::<serde_json::Number>(n).map(
            serde_json::Value::Number,
        ).unwrap_or(serde_json::Value::Null),
        JsonValue::String(s) => serde_json::Value::String(s.clone()),
        JsonValue::Array(a) => serde_json::Value::Array(a.iter().map(value_of).collect()),
        JsonValue::Object(o) => serde_json::Value::Object(
            o.iter().map(|m| (m.name.clone(), value_of(&m.value))).collect(),
        ),
    }
}

/// `serde_json::from_str`, read as a `serde_json::Value`: the document that
/// the text holds, or the message of the error.
#[verifier::external_body]
pub(crate) fn json_parse(text: &str) -> (r: Result<JsonValue, String>)
    ensures
        match r {
            Ok(v) => json_document(text@) == Ok::<JsonView, Seq<char>>(v@),
            Err(e) => json_document(text@) == Err::<JsonView, Seq<char>>(e@),
        },
{
    match serde_json::from_str::<serde_json::Value>(text) {
        Ok(value) => Ok(tree_of(value)),
        Err(error) => Err(error.to_string()),
    }
}

/// `serde_json::Value::to_string`: the document as compact JSON text.
#[verifier::external_body]
pub(crate) fn json_text(value: &JsonValue) -> (r: String)
    ensures
        r@ == json_text_of(value@),
{
    value_of(value).to_string()
}

/// The document as `{:#?}` prints the `Option` of a `serde_json::Value`.
#[verifier::external_body]
pub(crate) fn json_debug(value: &Option<JsonValue>) -> (r: String)
    ensures
        r@ == json_debug_of(
            match value {
                Some(v) => Some(v@),
                None => None,
            },
        ),
{
    format!("{:#?}", value.as_ref().map(value_of))
}

} // verus!
