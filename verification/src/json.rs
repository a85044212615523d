//! Lists of strings as JSON text, written and read by `serde_json`.

use vstd::prelude::*;

verus! {

/// The error of `serde_json`; nothing is read from it here.
#[verifier::external_type_specification]
#[verifier::external_body]
pub struct ExJsonError(serde_json::Error);

/// The list of strings that `serde_json::from_str` reads from `text`, or
/// `None` where it reports an error.
pub uninterp spec fn json_string_list(text: Seq<char>) -> Option<Seq<Seq<char>>>;

/// The JSON text that `serde_json::to_string` writes for a list of strings,
/// or `None` where it reports an error.
pub uninterp spec fn json_text(list: Seq<Seq<char>>) -> Option<Seq<char>>;

/// Calls `serde_json::from_str` for a `Vec<String>`. The contract only names
/// what comes back: the call depends on the text alone, and nothing is
/// claimed of the JSON grammar.
#[verifier::external_body]
pub(crate) fn parse_string_list(text: &str) -> (parsed: Result<Vec<String>, serde_json::Error>)
    ensures
        match parsed {
            Ok(list) => json_string_list(text@) == Some(list.deep_view()),
            Err(_) => json_string_list(text@) is None,
        },
{
    serde_json::from_str::<Vec<String>>(text)
}

/// Calls `serde_json::to_string` on a `Vec<String>`. The contract only names
/// what comes back: the call depends on the list alone, and neither the shape
/// of the text nor success is claimed.
#[verifier::external_body]
pub(crate) fn write_string_list(list: &Vec<String>) -> (written: Result<String, serde_json::Error>)
    ensures
        match written {
            Ok(text) => json_text(list.deep_view()) == Some(text@),
            Err(_) => json_text(list.deep_view()) is None,
        },
{
    serde_json::to_string(list)
}

} // verus!
