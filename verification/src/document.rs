//! Reading JSON documents, by the `json` crate.

use vstd::prelude::*;
use vstd::string::*;
use vstd::utf8::encode_utf8;
use crate::matcher::{Json, JsonModel};
use crate::number::JsonNumber;

verus! {

/// The longest run of digits that a text may hold to be read as a document.
pub const DIGIT_RUN_LIMIT: usize = 32767;

/// Whether a byte is an ASCII digit.
pub open spec fn is_digit(byte: u8) -> bool {
    0x30 <= byte <= 0x39
}

/// The length of the run of digits that ends just before `end`.
pub open spec fn digit_run(bytes: Seq<u8>, end: int) -> nat
    decreases end,
{
    if end <= 0 || end > bytes.len() || !is_digit(bytes[end - 1]) {
        0
    } else {
        1 + digit_run(bytes, end - 1)
    }
}

/// No run of digits among the bytes is longer than [`DIGIT_RUN_LIMIT`].
pub open spec fn digit_runs_fit(bytes: Seq<u8>) -> bool {
    forall|end: int| 0 <= end <= bytes.len() ==> #[trigger] digit_run(bytes, end) <= DIGIT_RUN_LIMIT
}

/// The value of the `json` crate: opaque here, read only through [`lift`].
#[verifier::external_type_specification]
#[verifier::external_body]
pub struct ExOutsideValue(::json::JsonValue);

/// The error of the `json` crate's parser.
#[verifier::external_type_specification]
#[verifier::external_body]
pub struct ExOutsideError(::json::Error);

/// The tree that a value of the `json` crate holds.
pub uninterp spec fn json_tree(value: ::json::JsonValue) -> JsonModel;

/// The tree that a text is read as, or `None` where the `json` crate's parser
/// does not take the text for a JSON document.
pub uninterp spec fn parsed_json(text: Seq<char>) -> Option<JsonModel>;

/// `json::parse` reads one JSON document from a text. It succeeds on the
/// texts for which `parsed_json` is `Some`, and the value it gives then holds
/// that tree.
///
/// The parser counts the digits of a fraction in a 16-bit exponent, one by
/// one and unchecked. `requires` keeps out the texts in which a run of digits
/// is too long for that.
pub assume_specification[ ::json::parse ](source: &str) -> (parsed: Result<
    ::json::JsonValue,
    ::json::Error,
>)
    requires
        digit_runs_fit(source.spec_bytes()),
    ensures
        match parsed {
            Ok(value) => parsed_json(source@) == Some(json_tree(value)),
            Err(_) => parsed_json(source@) is None,
        },
;

/// Copies a value of the `json` crate into a [`Json`], variant by
/// variant: its short and its long strings both become `String`, a number is
/// taken apart by `Number::as_parts`, the items of an array and the members
/// of an object are copied in their order, each by this function.
#[verifier::external_body]
fn lift(value: &::json::JsonValue) -> (lifted: Json)
    ensures
        lifted@ == json_tree(*value),
{
    match value {
        ::json::JsonValue::Null => Json::Null,
        ::json::JsonValue::Boolean(b) => Json::Bool(*b),
        ::json::JsonValue::Number(n) => {
            let (positive, mantissa, exponent) = n.as_parts();
            Json::Number(JsonNumber { positive, mantissa, exponent })
        },
        ::json::JsonValue::Short(s) => Json::String(s.as_str().to_string()),
        ::json::JsonValue::String(s) => Json::String(s.clone()),
        ::json::JsonValue::Array(items) => Json::Array(items.iter().map(lift).collect()),
        ::json::JsonValue::Object(members) => Json::Object(
            members.iter().map(|(name, held)| (name.to_string(), lift(held))).collect(),
        ),
    }
}

/// The tree that a text is read as, or `None` where it is not read as a
/// document: where it holds a run of digits longer than [`DIGIT_RUN_LIMIT`],
/// and where the parser turns it down.
pub open spec fn document(text: Seq<char>) -> Option<JsonModel> {
    if digit_runs_fit(encode_utf8(text)) {
        parsed_json(text)
    } else {
        None
    }
}

/// Whether no run of digits in the text is longer than [`DIGIT_RUN_LIMIT`].
pub fn digits_fit(text: &str) -> (fit: bool)
    ensures
        fit == digit_runs_fit(encode_utf8(text@)),
{
    let bytes = text.as_bytes();
    let mut run: usize = 0;
    let mut i: usize = 0;
    while i < bytes.len()
        invariant
            bytes@ == encode_utf8(text@),
            i <= bytes.len(),
            run == digit_run(bytes@, i as int),
            forall|end: int| 0 <= end <= i ==> #[trigger] digit_run(bytes@, end) <= DIGIT_RUN_LIMIT,
        decreases bytes.len() - i,
    {
        if 0x30 <= bytes[i] && bytes[i] <= 0x39 {
            run = run + 1;
            if run > DIGIT_RUN_LIMIT {
                assert(digit_run(bytes@, i + 1) > DIGIT_RUN_LIMIT);
                return false;
            }
        } else {
            run = 0;
        }
        i = i + 1;
    }
    true
}

/// Reads a text as one JSON document: see [`document`].
pub fn parse_json(text: &str) -> (parsed: Option<Json>)
    ensures
        match parsed {
            Some(value) => document(text@) == Some(value@),
            None => document(text@) is None,
        },
{
    if !digits_fit(text) {
        return None;
    }
    match ::json::parse(text) {
        Ok(tree) => Some(lift(&tree)),
        Err(_) => None,
    }
}

} // verus!
