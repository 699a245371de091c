//! Reading single fields out of a JSON text. The parsing is `serde_json`'s;
//! each reader's result is a function of its arguments and gets a name.

use vstd::prelude::*;

verus! {

/// Whether a text is one JSON value.
pub uninterp spec fn json_is_valid(text: Seq<char>) -> bool;

/// The unsigned integer under `key` of the JSON object that `text` holds.
pub uninterp spec fn json_number_at(text: Seq<char>, key: Seq<char>) -> Option<u64>;

/// The string under `key` of the JSON object that `text` holds.
pub uninterp spec fn json_text_at(text: Seq<char>, key: Seq<char>) -> Option<Seq<char>>;

/// For the array under `list` of the JSON object that `text` holds, the
/// strings under `first` and `second` of each of its items, in order.
pub uninterp spec fn json_pairs_at(
    text: Seq<char>,
    list: Seq<char>,
    first: Seq<char>,
    second: Seq<char>,
) -> Option<Seq<(Option<Seq<char>>, Option<Seq<char>>)>>;

/// A text as a JSON string literal, in quotes and with its escapes.
pub uninterp spec fn json_quoted(text: Seq<char>) -> Seq<char>;

/// The texts of a list of pairs of optional strings.
pub open spec fn pair_texts(pairs: Seq<(Option<String>, Option<String>)>) -> Seq<
    (Option<Seq<char>>, Option<Seq<char>>),
> {
    Seq::new(
        pairs.len(),
        |i: int|
            (
                match pairs[i].0 {
                    Some(s) => Some(s@),
                    None => None,
                },
                match pairs[i].1 {
                    Some(s) => Some(s@),
                    None => None,
                },
            ),
    )
}

/// Makes a `serde_json::Value::String` of the text and writes it in compact
/// form with `serde_json`'s `Display`. The contract gives the result the
/// name `json_quoted`.
#[verifier::external_body]
pub(crate) fn json_quote(text: &str) -> (r: String)
    ensures
        r@ == json_quoted(text@),
{
    serde_json::Value::String(text.to_owned()).to_string()
}

/// Calls `serde_json::from_str` for a `serde_json::Value` and says whether
/// it succeeded. The contract gives the answer the name `json_is_valid`.
#[verifier::external_body]
pub(crate) fn json_parses(text: &str) -> (ok: bool)
    ensures
        ok == json_is_valid(text@),
{
    serde_json::from_str::<serde_json::Value>(text).is_ok()
}

/// Parses `text` with `serde_json::from_str`, indexes the value by `key` and
/// calls `Value::as_u64`: `None` where the text does not parse, has no such
/// key or holds no unsigned integer there. The contract gives the result the
/// name `json_number_at`.
#[verifier::external_body]
pub(crate) fn json_number(text: &str, key: &str) -> (n: Option<u64>)
    ensures
        n == json_number_at(text@, key@),
{
    match serde_json::from_str::<serde_json::Value>(text) {
        Ok(value) => value[key].as_u64(),
        Err(_) => None,
    }
}

/// Parses `text` with `serde_json::from_str`, indexes the value by `key` and
/// calls `Value::as_str`: `None` where the text does not parse, has no such
/// key or holds no string there. The contract gives the result the name
/// `json_text_at`.
#[verifier::external_body]
pub(crate) fn json_text(text: &str, key: &str) -> (s: Option<String>)
    ensures
        match s {
            Some(found) => json_text_at(text@, key@) == Some(found@),
            None => json_text_at(text@, key@) is None,
        },
{
    match serde_json::from_str::<serde_json::Value>(text) {
        Ok(value) => match value[key].as_str() {
            Some(found) => Some(found.to_owned()),
            None => None,
        },
        Err(_) => None,
    }
}

/// Parses `text` with `serde_json::from_str`, indexes the value by `list`,
/// calls `Value::as_array` and reads the strings under `first` and `second`
/// of each item with `Value::as_str`: `None` where the text does not parse
/// or holds no array there. The contract gives the result the name
/// `json_pairs_at`.
#[verifier::external_body]
pub(crate) fn json_pairs(text: &str, list: &str, first: &str, second: &str) -> (pairs: Option<
    Vec<(Option<String>, Option<String>)>,
>)
    ensures
        match pairs {
            Some(found) => json_pairs_at(text@, list@, first@, second@) == Some(
                pair_texts(found@),
            ),
            None => json_pairs_at(text@, list@, first@, second@) is None,
        },
{
    let value = serde_json::from_str::<serde_json::Value>(text).ok()?;
    let items = value[list].as_array()?;
    let mut found = Vec::new();
    for item in items {
        found.push((item[first].as_str().map(str::to_owned), item[second].as_str().map(str::to_owned)));
    }
    Some(found)
}

} // verus!
