//! JSON values kept on documents as snapshots of related records, and the
//! JSON text that lists of strings and snapshots are stored as.
use vstd::prelude::*;

verus! {

/// `serde_json::Value`, carried opaquely.
#[verifier::external_type_specification]
#[verifier::external_body]
pub struct ExValue(serde_json::Value);

/// `Value`'s derived `Clone` copies the value.
pub assume_specification[ <serde_json::Value as Clone>::clone ](v: &serde_json::Value) -> (r:
    serde_json::Value)
    ensures
        r == *v,
;

/// The texts of a list of strings.
pub open spec fn string_views(v: Seq<String>) -> Seq<Seq<char>> {
    v.map_values(|s: String| s@)
}

/// Whether `serde_json::from_str::<Value>` refuses a text, and with which
/// error (its `Display` text).
pub uninterp spec fn json_value_error(s: Seq<char>) -> Option<Seq<char>>;

/// The value that `serde_json::from_str::<Value>` reads from a text it
/// accepts.
pub uninterp spec fn json_value_parse(s: Seq<char>) -> serde_json::Value;

/// `serde_json::from_str::<serde_json::Value>(s)`, its error rendered by
/// `Display`.
#[verifier::external_body]
pub(crate) fn parse_json_value(s: &str) -> (r: Result<serde_json::Value, String>)
    ensures
        match (r, json_value_error(s@)) {
            (Ok(v), None) => v == json_value_parse(s@),
            (Err(m), Some(n)) => m@ == n,
            _ => false,
        },
{
    serde_json::from_str::<serde_json::Value>(s).map_err(|e| e.to_string())
}

/// What `serde_json::from_str::<Vec<String>>` gives for a text: the
/// strings, or the `Display` text of its error.
pub uninterp spec fn json_string_list(s: Seq<char>) -> Result<Seq<Seq<char>>, Seq<char>>;

/// `serde_json::from_str::<Vec<String>>(s)`, its error rendered by
/// `Display`.
#[verifier::external_body]
pub(crate) fn parse_string_list(s: &str) -> (r: Result<Vec<String>, String>)
    ensures
        match (r, json_string_list(s@)) {
            (Ok(v), Ok(w)) => string_views(v@) == w,
            (Err(m), Err(n)) => m@ == n,
            _ => false,
        },
{
    serde_json::from_str::<Vec<String>>(s).map_err(|e| e.to_string())
}

/// What `serde_json::to_string` gives for a list of strings.
pub uninterp spec fn json_string_list_text(v: Seq<Seq<char>>) -> Seq<char>;

/// `serde_json::to_string(v)` for a list of strings, its error rendered by
/// `Display`. It always succeeds: `to_string` fails only when a `Serialize`
/// impl decides to or a map has keys that are not strings, and a list of
/// strings does neither. Its text reads back, by `from_str::<Vec<String>>`,
/// as the same strings: every character is written as itself or as an
/// escape that the reader turns back into it.
#[verifier::external_body]
pub(crate) fn render_string_list(v: &Vec<String>) -> (r: Result<String, String>)
    ensures
        r is Ok,
        r matches Ok(t) ==> t@ == json_string_list_text(string_views(v@)),
        r matches Ok(t) ==> (json_string_list(t@) matches Ok(w) && w == string_views(v@)),
{
    serde_json::to_string(v).map_err(|e| e.to_string())
}

/// The JSON text that `serde_json::to_string` writes for a value: what the
/// value holds, as text.
pub uninterp spec fn json_value_text(v: serde_json::Value) -> Seq<char>;

/// `serde_json::to_string(v)` for a JSON value, its error rendered by
/// `Display`. It always succeeds: `to_string` fails only when a `Serialize`
/// impl decides to or a map has keys that are not strings, and `Value`'s impl
/// never fails and its maps have string keys.
#[verifier::external_body]
pub(crate) fn render_json_value(v: &serde_json::Value) -> (r: Result<String, String>)
    ensures
        r is Ok,
        r matches Ok(t) ==> t@ == json_value_text(*v),
{
    serde_json::to_string(v).map_err(|e| e.to_string())
}

} // verus!
