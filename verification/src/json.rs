//! JSON objects as `serde_json` parses them, and what the protocol reads from
//! one: whether a key is there, and its value as a text or as an integer.

use std::collections::HashMap;
use vstd::prelude::*;

verus! {

/// A JSON value of `serde_json`, carried without looking inside.
#[verifier::external_type_specification]
#[verifier::external_body]
pub struct ExValue(serde_json::Value);

/// A parse error of `serde_json`, carried without looking inside.
#[verifier::external_type_specification]
#[verifier::external_body]
pub struct ExError(serde_json::Error);

/// What the protocol reads under one key of a reply.
#[derive(Debug, PartialEq, Eq)]
pub enum Field {
    /// The key is not in the object.
    Missing,
    /// The value is a JSON string.
    Text(String),
    /// The value is a JSON number that is an integer within `i64`.
    Integer(i64),
    /// The value is anything else: null, a boolean, another number, an array
    /// or an object.
    Other,
}

/// The mathematical value of a [`Field`].
pub enum FieldView {
    Missing,
    Text(Seq<char>),
    Integer(int),
    Other,
}

impl View for Field {
    type V = FieldView;

    open spec fn view(&self) -> FieldView {
        match self {
            Field::Missing => FieldView::Missing,
            Field::Text(text) => FieldView::Text(text@),
            Field::Integer(number) => FieldView::Integer(*number as int),
            Field::Other => FieldView::Other,
        }
    }
}

impl Clone for Field {
    fn clone(&self) -> (r: Self)
        ensures
            r@ == self@,
    {
        match self {
            Field::Missing => Field::Missing,
            Field::Text(text) => Field::Text(text.clone()),
            Field::Integer(number) => Field::Integer(*number),
            Field::Other => Field::Other,
        }
    }
}

/// The entries of a parsed JSON object: under each key that the object holds,
/// what `serde_json::Value::as_str` and `serde_json::Value::as_i64` give for
/// its value.
pub uninterp spec fn object_fields(object: HashMap<String, serde_json::Value>) -> Map<
    Seq<char>,
    FieldView,
>;

/// What `serde_json::from_slice` makes of a body read as a JSON object: its
/// entries, or `None` where the body is refused.
pub uninterp spec fn parsed_fields(body: Seq<u8>) -> Option<Map<Seq<char>, FieldView>>;

/// What formatting a text with `{:?}` writes: the text in double quotes, with
/// the escapes of `<str as std::fmt::Debug>::fmt`.
pub uninterp spec fn debug_text(text: Seq<char>) -> Seq<char>;

/// What stands under `key` among `fields`.
pub open spec fn lookup(fields: Map<Seq<char>, FieldView>, key: Seq<char>) -> FieldView {
    if fields.contains_key(key) {
        fields[key]
    } else {
        FieldView::Missing
    }
}

/// Parses a body as a JSON object with `serde_json::from_slice`. On success
/// the entries of the object are the named value `parsed_fields` of the body;
/// an error comes exactly where that value is `None`.
#[verifier::external_body]
pub(crate) fn parse_object(body: &[u8]) -> (r: Result<
    HashMap<String, serde_json::Value>,
    serde_json::Error,
>)
    ensures
        r.is_ok() == parsed_fields(body@).is_some(),
        r matches Ok(object) ==> parsed_fields(body@) == Some(object_fields(object)),
{
    serde_json::from_slice(body)
}

/// Looks `key` up with `HashMap::get` and reads the value found with
/// `serde_json::Value::as_str` and `serde_json::Value::as_i64`. The result is
/// the entry of `object_fields` under `key`, or `Missing` where there is none.
#[verifier::external_body]
pub(crate) fn field(object: &HashMap<String, serde_json::Value>, key: &str) -> (r: Field)
    ensures
        r@ == lookup(object_fields(*object), key@),
{
    match object.get(key) {
        None => Field::Missing,
        Some(value) => match (value.as_str(), value.as_i64()) {
            (Some(text), _) => Field::Text(text.to_string()),
            (_, Some(number)) => Field::Integer(number),
            _ => Field::Other,
        },
    }
}

/// Renders a parse error with its `Debug` form. Nothing is claimed of the
/// text.
#[verifier::external_body]
pub(crate) fn error_detail(error: &serde_json::Error) -> (r: String) {
    format!("{:?}", error)
}

/// Renders a text with `{:?}`, that is through `<str as std::fmt::Debug>::fmt`.
/// The result is the named value `debug_text`.
#[verifier::external_body]
pub(crate) fn quoted(text: &str) -> (r: String)
    ensures
        r@ == debug_text(text@),
{
    format!("{:?}", text)
}

} // verus!
