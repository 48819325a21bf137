//! The JSON calls that the runtime makes: serialising the script's
//! arguments and parsing the text that the script returns.
use vstd::prelude::*;

verus! {

#[verifier::external_type_specification]
#[verifier::external_body]
pub struct ExJsonValue(serde_json::Value);

#[verifier::external_type_specification]
#[verifier::external_body]
pub struct ExJsonError(serde_json::Error);

/// Whether `serde_json::from_str::<serde_json::Value>` accepts `text`, that
/// is, whether `text` is one JSON value, possibly surrounded by whitespace,
/// within the parser's nesting limit.
pub uninterp spec fn json_text_accepted(text: Seq<char>) -> bool;

/// The value that `serde_json::from_str::<serde_json::Value>` gives for
/// `text` when it accepts it; a function of the text alone.
pub uninterp spec fn json_value_of(text: Seq<char>) -> serde_json::Value;

/// Parses `text` with `serde_json::from_str` into a `serde_json::Value`.
/// Trusted to succeed exactly when `json_text_accepted(text@)` holds, and then
/// to give `json_value_of(text@)`.
#[verifier::external_body]
pub(crate) fn parse_json_text(text: &str) -> (res: Result<serde_json::Value, serde_json::Error>)
    ensures
        res is Ok <==> json_text_accepted(text@),
        res matches Ok(v) ==> v == json_value_of(text@),
{
    serde_json::from_str(text)
}

/// The compact JSON text that `serde_json::to_string` writes for `value`.
/// `serde_json::Value` has no view here; the value itself is the argument,
/// and the text is a function of it alone (object keys are written in the
/// map's own order).
pub uninterp spec fn json_text_of(value: serde_json::Value) -> Seq<char>;

/// Serialises `value` with `serde_json::to_string`. Trusted to succeed, with
/// the text `json_text_of(*value)`: a `Value` writes into a `Vec`, which never
/// fails, its object keys are strings, and a non-finite number is written as
/// `null`, so nothing in the serialisation returns an error.
#[verifier::external_body]
pub(crate) fn json_value_text(value: &serde_json::Value) -> (res: Result<String, serde_json::Error>)
    ensures
        res is Ok,
        res matches Ok(text) ==> text@ == json_text_of(*value),
{
    serde_json::to_string(value)
}

/// `serde_json::Value::Null`, which is what `serde_json::from_str` gives for
/// the text `null`.
#[verifier::external_body]
pub(crate) fn json_null() -> (res: serde_json::Value)
    ensures
        res == json_value_of("null"@),
{
    serde_json::Value::Null
}

/// Wraps a `serde_json::Error` in an `anyhow::Error` with `anyhow::Error::from`.
/// Nothing is claimed of the result, which is opaque here.
#[verifier::external_body]
pub(crate) fn json_error_into_anyhow(e: serde_json::Error) -> anyhow::Error {
    anyhow::Error::from(e)
}

} // verus!
