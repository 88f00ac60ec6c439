//! The JSON text layer. Reading and printing JSON text is the work of
//! `rustc_serialize`; this module states what the library relies on.

use vstd::prelude::*;
use vstd::utf8::{decode_utf8, encode_utf8, valid_utf8};
use crate::limits::{
    MAX_TEXT_BYTES, has_exponent, has_trailing_comma, scan_text, within_limits,
};
use crate::value::{Float, Object, Value, ValueView};
use rustc_serialize::json::{EncoderError, ErrorCode, Json, ParserError};

verus! {

/// `rustc_serialize::json::Json`, carried between the calls below and never
/// looked into.
#[verifier::external_type_specification]
#[verifier::external_body]
pub struct ExJson(rustc_serialize::json::Json);

/// `rustc_serialize::json::ParserError`: why a text was rejected.
#[verifier::external_type_specification]
#[verifier::external_body]
pub struct ExParserError(rustc_serialize::json::ParserError);

/// `rustc_serialize::json::EncoderError`: why a value was not printed.
#[verifier::external_type_specification]
#[verifier::external_body]
pub struct ExEncoderError(rustc_serialize::json::EncoderError);

/// What a `rustc_serialize::json::Json` holds, as the model of the value
/// with the same variants: an array with the models of its elements in
/// order, an object with the models of its members under their keys, and a
/// float as the decimal text that `to_string` prints for it.
pub uninterp spec fn json_view(value: Json) -> ValueView;

/// The value that `rustc_serialize::json::Json::from_str` builds from a text
/// without an exponent, or `None` where it rejects the text. (With an
/// exponent the number is computed with a power of ten whose last digits
/// the machine decides, so such a text has no result of its own.)
pub uninterp spec fn json_parse(text: Seq<char>) -> Option<ValueView>;

/// The compact text that `rustc_serialize::json::encode` prints for a value.
pub uninterp spec fn json_text(value: ValueView) -> Seq<char>;

/// The bytes that carry a value: its compact JSON text in UTF-8.
pub open spec fn wire_bytes(value: ValueView) -> Seq<u8> {
    encode_utf8(json_text(value))
}

/// What `{:?}` prints for a `rustc_serialize::json::Json`.
pub uninterp spec fn json_debug(value: ValueView) -> Seq<char>;

/// Rebuilds a value as a `rustc_serialize::json::Json`, variant by variant.
/// A float hands over a copy of the number that it keeps, and the members
/// of an object go into the `BTreeMap` that `rustc_serialize` keeps them
/// in, so the result holds what the value holds.
#[verifier::external_body]
pub(crate) fn to_outside(value: &Value) -> (r: Json)
    ensures
        json_view(r) == value@,
{
    match value {
        Value::I64(n) => Json::I64(*n),
        Value::U64(n) => Json::U64(*n),
        Value::F64(x) => x.number.clone(),
        Value::String(s) => Json::String(s.clone()),
        Value::Boolean(b) => Json::Boolean(*b),
        Value::Array(items) => Json::Array(items.iter().map(to_outside).collect()),
        Value::Object(object) => Json::Object(
            object.entries.iter().map(|e| (e.0.clone(), to_outside(&e.1))).collect(),
        ),
        Value::Null => Json::Null,
    }
}

/// Takes a `rustc_serialize::json::Json` apart, variant by variant. A float
/// is kept as it is, beside the decimal text that `to_string` prints for
/// it, which is what every `Float` holds. The members of an object come out
/// of the `BTreeMap`, which holds no key twice. So the result holds what
/// the `Json` held.
#[verifier::external_body]
pub(crate) fn from_outside(value: Json) -> (r: Value)
    ensures
        r@ == json_view(value),
{
    match value {
        Json::I64(n) => Value::I64(n),
        Json::U64(n) => Value::U64(n),
        Json::F64(x) => Value::F64(Float { text: x.to_string(), number: Json::F64(x) }),
        Json::String(s) => Value::String(s),
        Json::Boolean(b) => Value::Boolean(b),
        Json::Array(items) => Value::Array(items.into_iter().map(from_outside).collect()),
        Json::Object(members) => Value::Object(
            Object { entries: members.into_iter().map(|e| (e.0, from_outside(e.1))).collect() },
        ),
        Json::Null => Value::Null,
    }
}

/// `Clone` of `rustc_serialize::json::Json`, which is derived: the copy
/// holds what the value holds.
#[verifier::external_body]
pub(crate) fn clone_number(value: &Json) -> (r: Json)
    ensures
        json_view(r) == json_view(*value),
{
    value.clone()
}

/// `rustc_serialize::json::Json::from_str`: reads one JSON value from a
/// text. It is called only within the limits, beyond which the parser's
/// stack of keys, its count of elements or of an exponent's digits, or its
/// own depth overflows, and only without a comma before the end of an
/// object, on which the parser loses its place. Where the text has no
/// exponent, what is built depends on the text alone, and `json_parse` is
/// the name of what the built value holds. Where it has one, the call
/// returns a value or a failure and no more is known.
#[verifier::external_body]
pub(crate) fn parse_outside(text: &str) -> (r: Result<Json, ParserError>)
    requires
        within_limits(encode_utf8(text@)),
        !has_trailing_comma(encode_utf8(text@)),
    ensures
        !has_exponent(encode_utf8(text@)) ==> match r {
            Ok(value) => json_parse(text@) == Some(json_view(value)),
            Err(_) => json_parse(text@) is None,
        },
{
    Json::from_str(text)
}

/// `ParserError::SyntaxError` with the code `TrailingComma`: the failure
/// that stands for a comma before the end of an object. The place of the
/// comma in the text is not recorded.
#[verifier::external_body]
pub(crate) fn trailing_comma_error() -> ParserError {
    ParserError::SyntaxError(ErrorCode::TrailingComma, 0, 0)
}

/// `rustc_serialize::json::encode`: prints a value as compact JSON text,
/// the members of an object in the order of their keys. It writes into a
/// `String`, which takes every write, and the keys of an object are strings,
/// so on a `Json` it always returns a text. The text depends alone on what
/// the value holds; `json_text` is its name.
#[verifier::external_body]
pub(crate) fn encode_outside(value: &Json) -> (r: Result<String, EncoderError>)
    ensures
        r is Ok,
        r matches Ok(text) ==> text@ == json_text(json_view(*value)),
{
    rustc_serialize::json::encode(value)
}

/// The `Debug` form of a `rustc_serialize::json::Json`. It depends alone on
/// what the value holds; `json_debug` is its name.
#[verifier::external_body]
pub(crate) fn debug_outside(value: &Json) -> (r: String)
    ensures
        r@ == json_debug(json_view(*value)),
{
    format!("{:?}", value)
}

/// Whether `outcome` is what reading `text` gives. A comma before the end
/// of an object is a failure. Else, for a text without an exponent, it is
/// the value that the text spells or a failure where it spells none; for a
/// text with one, any value or failure.
pub open spec fn parsed(outcome: Result<Value, ParserError>, text: Seq<char>) -> bool {
    if has_trailing_comma(encode_utf8(text)) {
        outcome is Err
    } else {
        !has_exponent(encode_utf8(text)) ==> match outcome {
            Ok(value) => json_parse(text) == Some(value@),
            Err(_) => json_parse(text) is None,
        }
    }
}

/// Reads one JSON value from a text, or returns `None` where the text is
/// beyond the limits of the parser and is not handed to it.
pub fn parse_text(text: &str) -> (r: Option<Result<Value, ParserError>>)
    ensures
        r is None <==> !within_limits(encode_utf8(text@)),
        r matches Some(outcome) ==> parsed(outcome, text@),
{
    let bytes = text.as_bytes();
    if bytes.len() > MAX_TEXT_BYTES {
        return None;
    }
    let marks = scan_text(bytes).marks;
    if marks.long_key || marks.long_exponent || marks.deep {
        return None;
    }
    if marks.trailing_comma {
        return Some(Err(trailing_comma_error()));
    }
    match parse_outside(text) {
        Ok(value) => Some(Ok(from_outside(value))),
        Err(e) => Some(Err(e)),
    }
}

/// Prints a value as compact JSON text. Every value has one.
pub fn encode_text(value: &Value) -> (r: Result<String, EncoderError>)
    ensures
        r is Ok,
        r matches Ok(text) ==> text@ == json_text(value@),
{
    let outside = to_outside(value);
    encode_outside(&outside)
}

/// The text that shows a value in the detail of an error.
pub fn debug_text(value: &Value) -> (r: String)
    ensures
        r@ == json_debug(value@),
{
    let outside = to_outside(value);
    debug_outside(&outside)
}

/// `std::error::Error::description` of a `ParserError`, which is the same
/// text for every parse error.
#[verifier::external_body]
pub(crate) fn parser_error_description(e: &ParserError) -> (r: String)
    ensures
        r@ == "failed to parse json"@,
{
    std::error::Error::description(e).to_owned()
}

/// `std::error::Error::description` of an `EncoderError`, which is the same
/// text for every encoder error.
#[verifier::external_body]
pub(crate) fn encoder_error_description(e: &EncoderError) -> (r: String)
    ensures
        r@ == "encoder error"@,
{
    std::error::Error::description(e).to_owned()
}

/// `std::str::from_utf8`: the text that a byte string spells, where the
/// bytes are well-formed UTF-8, and `None` where they are not.
#[verifier::external_body]
pub(crate) fn utf8_text(bytes: &[u8]) -> (r: Option<&str>)
    ensures
        match r {
            Some(text) => valid_utf8(bytes@) && text@ == decode_utf8(bytes@),
            None => !valid_utf8(bytes@),
        },
{
    std::str::from_utf8(bytes).ok()
}

} // verus!
