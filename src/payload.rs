//! Bulk map updates arrive as JSON objects whose values are all strings.
use vstd::prelude::*;

use crate::assoc::assoc_map;
use crate::field_map::view_pairs;

verus! {

/// The key/value pairs of `text` read as a JSON object of strings, in the
/// order of their keys; `None` where `text` is no such object.
pub uninterp spec fn json_string_pairs(text: Seq<char>) -> Option<Seq<(Seq<char>, Seq<char>)>>;

/// Relies on `serde_json::from_str` (as re-exported by `near_sdk`) reading
/// `text` into a `BTreeMap<String, String>`: it fails unless `text` is a JSON
/// object whose values are all strings.
#[verifier::external_body]
pub(crate) fn parse_string_object(text: &str) -> (r: Option<Vec<(String, String)>>)
    ensures
        match r {
            Some(v) => json_string_pairs(text@) == Some(view_pairs(v@)),
            None => json_string_pairs(text@) is None,
        },
{
    match near_sdk::serde_json::from_str::<std::collections::BTreeMap<String, String>>(text) {
        Ok(m) => Some(m.into_iter().collect()),
        Err(_) => None,
    }
}

/// The map that the payload `text` sets; empty where `text` cannot be read.
pub open spec fn payload_map(text: Seq<char>) -> Map<Seq<char>, Seq<char>> {
    match json_string_pairs(text) {
        Some(p) => assoc_map(p),
        None => Map::empty(),
    }
}

} // verus!
