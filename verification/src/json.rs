//! The JSON encoder that the record format rests on.
//!
//! Strings and caller-supplied metadata are encoded by `serde_json`. Nothing
//! in this file is proved: each contract below is taken on trust from the
//! encoder's source, and the rest of the crate is proved against them. They
//! hold of `serde_json` as it is built here, with its default features.

use vstd::prelude::*;

verus! {

/// `serde_json::Value`, any JSON value. It is carried through unread.
#[verifier::external_type_specification]
#[verifier::external_body]
pub struct ExValue(serde_json::Value);

/// `serde_json::Error`, the encoder's failure. It is carried through unread.
#[verifier::external_type_specification]
#[verifier::external_body]
pub struct ExError(serde_json::Error);

/// Whether `text` holds no control character, that is no character below
/// U+0020. Such a text holds no line feed.
pub open spec fn is_printable(text: Seq<char>) -> bool {
    forall|i: int| 0 <= i < text.len() ==> (#[trigger] text[i]) as u32 >= 0x20
}

/// The compact JSON text that `serde_json::to_string` gives for the string
/// `s`: the characters of `s` between double quotes, with the quote, the
/// backslash and the control characters escaped.
pub uninterp spec fn json_string_text(s: Seq<char>) -> Seq<char>;

/// The compact JSON text that `serde_json::to_string` gives for `value`.
pub uninterp spec fn json_value_text(value: serde_json::Value) -> Seq<char>;

/// Calls `serde_json::to_string` on a string slice.
///
/// The call succeeds: the encoder writes into a vector of bytes, and for a
/// string it fails only where the writer does. The text is a function of the
/// characters alone, `json_string_text` of them. It holds no control
/// character: the encoder's escape table replaces every character below
/// U+0020 by an escape sequence.
#[verifier::external_body]
pub(crate) fn encode_str(s: &str) -> (r: Result<String, serde_json::Error>)
    ensures
        r is Ok,
        r matches Ok(text) ==> text@ == json_string_text(s@),
        r matches Ok(text) ==> is_printable(text@),
{
    serde_json::to_string(s)
}

/// Calls `serde_json::to_string` on a JSON value.
///
/// The call succeeds: the encoder writes into a vector of bytes, the keys of
/// an object are strings, and a number that is not finite is written as
/// `null`. The text is a function of the value alone, `json_value_text` of
/// it: the members of an object are written in the order of their keys. It
/// holds no control character: the compact form has no white space, strings
/// and keys go through the escape table, and a number is written in decimal.
#[verifier::external_body]
pub(crate) fn encode_value(value: &serde_json::Value) -> (r: Result<String, serde_json::Error>)
    ensures
        r is Ok,
        r matches Ok(text) ==> text@ == json_value_text(*value),
        r matches Ok(text) ==> is_printable(text@),
{
    serde_json::to_string(value)
}

} // verus!
