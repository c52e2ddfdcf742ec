//! JSON text of lists and tables, written and read by the `serde_json` crate.

use vstd::prelude::*;
use crate::models::{SpecEntry, SpecGroup};

verus! {

/// The JSON array that `serde_json` writes for a list of texts.
pub uninterp spec fn json_of_texts(texts: Seq<Seq<char>>) -> Seq<char>;

/// The list of texts that `serde_json` reads from JSON text, where the
/// text is an array of strings.
pub uninterp spec fn texts_of_json(json: Seq<char>) -> Option<Seq<Seq<char>>>;

/// The JSON object that `serde_json` writes for a table of keys and values.
pub uninterp spec fn json_of_table(entries: Seq<(Seq<char>, Seq<char>)>) -> Seq<char>;

/// The JSON object that `serde_json` writes for a list of titled tables.
pub uninterp spec fn json_of_groups(
    groups: Seq<(Seq<char>, Seq<(Seq<char>, Seq<char>)>)>,
) -> Seq<char>;

/// `serde_json::to_string` on a list of texts; the empty text if it fails.
/// The result is a function of the texts alone.
#[verifier::external_body]
pub(crate) fn encode_texts(texts: &Vec<String>) -> (json: String)
    ensures
        json@ == json_of_texts(texts.deep_view()),
{
    serde_json::to_string(texts).unwrap_or_default()
}

/// `serde_json::from_str` to a list of texts; `None` where the text is
/// not a JSON array of strings. The result is a function of the text alone.
#[verifier::external_body]
pub(crate) fn decode_texts(json: &str) -> (texts: Option<Vec<String>>)
    ensures
        texts.deep_view() == texts_of_json(json@),
{
    serde_json::from_str::<Vec<String>>(json).ok()
}

/// `serde_json::to_string` on the object with one member for each entry,
/// put in order with `Map::insert`; the empty text if it fails. The result
/// is a function of the entries alone.
#[verifier::external_body]
pub(crate) fn encode_table(entries: &Vec<SpecEntry>) -> (json: String)
    ensures
        json@ == json_of_table(entries.deep_view()),
{
    let mut object = serde_json::Map::new();
    for entry in entries.iter() {
        object.insert(entry.key.clone(), serde_json::Value::String(entry.value.clone()));
    }
    serde_json::to_string(&serde_json::Value::Object(object)).unwrap_or_default()
}

/// `serde_json::to_string` on the object with one member for each group,
/// itself an object with one member for each entry, all put in order with
/// `Map::insert`; the empty text if it fails. The result is a function of
/// the groups alone.
#[verifier::external_body]
pub(crate) fn encode_groups(groups: &Vec<SpecGroup>) -> (json: String)
    ensures
        json@ == json_of_groups(groups.deep_view()),
{
    let mut object = serde_json::Map::new();
    for group in groups.iter() {
        let mut inner = serde_json::Map::new();
        for entry in group.entries.iter() {
            inner.insert(entry.key.clone(), serde_json::Value::String(entry.value.clone()));
        }
        object.insert(group.title.clone(), serde_json::Value::Object(inner));
    }
    serde_json::to_string(&serde_json::Value::Object(object)).unwrap_or_default()
}

} // verus!
