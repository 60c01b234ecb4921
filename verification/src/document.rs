//! The TOML document a configuration is read from. Parsing and lookup are
//! the `toml` crate's work; what this file says of them is believed, not
//! proved.

use vstd::prelude::*;

verus! {

/// A parsed TOML value of the `toml` crate, carried through as it is.
#[verifier::external_type_specification]
#[verifier::external_body]
pub struct ExTomlValue(toml::Value);

/// The error `toml::from_str` reports for a text it cannot parse.
#[verifier::external_type_specification]
#[verifier::external_body]
pub struct ExTomlError(toml::de::Error);

/// What `toml::from_str::<toml::Value>` makes of a text: the document, or
/// `None` where it reports an error.
pub uninterp spec fn parsed_document(text: Seq<char>) -> Option<toml::Value>;

/// What `toml::Value::get` finds in a value under a string key: the entry of
/// that name if the value is a table that has one, else `None`.
pub uninterp spec fn document_entry(value: toml::Value, key: Seq<char>) -> Option<toml::Value>;

/// What `toml::Value::as_str` extracts: the text of a string value, `None`
/// for a value of any other kind.
pub uninterp spec fn value_text(value: toml::Value) -> Option<Seq<char>>;

/// What `toml::Value::as_integer` extracts: the number of an integer value,
/// `None` for a value of any other kind.
pub uninterp spec fn value_integer(value: toml::Value) -> Option<i64>;

/// Calls `toml::from_str::<toml::Value>`. Believed: the outcome depends on
/// the text alone, so the same text gives the same document or fails alike.
#[verifier::external_body]
pub(crate) fn parse_document(text: &str) -> (parsed: Result<toml::Value, toml::de::Error>)
    ensures
        match parsed {
            Ok(document) => parsed_document(text@) == Some(document),
            Err(_) => parsed_document(text@) is None,
        },
{
    toml::from_str::<toml::Value>(text)
}

/// Calls `toml::Value::get` with a string key. Believed: the entry handed
/// out depends on the value and the key alone.
#[verifier::external_body]
pub(crate) fn entry<'a>(value: &'a toml::Value, key: &str) -> (found: Option<&'a toml::Value>)
    ensures
        match found {
            Some(inner) => document_entry(*value, key@) == Some(*inner),
            None => document_entry(*value, key@) is None,
        },
{
    value.get(key)
}

/// `toml::Value::as_str` hands out the text that `value_text` names.
pub assume_specification<'a>[ toml::Value::as_str ](value: &'a toml::Value) -> (text: Option<
    &'a str,
>)
    ensures
        match text {
            Some(s) => value_text(*value) == Some(s@),
            None => value_text(*value) is None,
        },
;

/// `toml::Value::as_integer` hands out the number that `value_integer` names.
pub assume_specification[ toml::Value::as_integer ](value: &toml::Value) -> (number: Option<i64>)
    ensures
        number == value_integer(*value),
;

/// The text stored under `key` at the top of a document, if there is an
/// entry of that name and it is a string.
pub open spec fn field_text(document: toml::Value, key: Seq<char>) -> Option<Seq<char>> {
    match document_entry(document, key) {
        Some(value) => value_text(value),
        None => None,
    }
}

/// The number stored under `key` at the top of a document, if there is an
/// entry of that name and it is an integer.
pub open spec fn field_integer(document: toml::Value, key: Seq<char>) -> Option<i64> {
    match document_entry(document, key) {
        Some(value) => value_integer(value),
        None => None,
    }
}

/// Reads a string field of a document.
pub fn text_field(document: &toml::Value, key: &str) -> (text: Option<String>)
    ensures
        match text {
            Some(s) => field_text(*document, key@) == Some(s@),
            None => field_text(*document, key@) is None,
        },
{
    match entry(document, key) {
        Some(value) => match value.as_str() {
            Some(s) => Some(s.to_owned()),
            None => None,
        },
        None => None,
    }
}

/// Reads an integer field of a document.
pub fn integer_field(document: &toml::Value, key: &str) -> (number: Option<i64>)
    ensures
        number == field_integer(*document, key@),
{
    match entry(document, key) {
        Some(value) => value.as_integer(),
        None => None,
    }
}

} // verus!
