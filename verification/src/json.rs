//! The JSON texts that the library writes and reads, through `serde_json`.
use vstd::prelude::*;

verus! {

/// The JSON array of strings that `serde_json::to_string` writes for `items`.
pub uninterp spec fn json_string_list(items: Seq<Seq<char>>) -> Seq<char>;

/// What `serde_json::from_str::<Value>` reads from `text` when the text is a
/// JSON object: its members in key order, each with its value when that value is
/// a JSON string. `None` when the text is not a JSON object.
pub uninterp spec fn parsed_object_members(text: Seq<char>) -> Option<Seq<(Seq<char>, Option<Seq<char>>)>>;

/// The JSON object that `serde_json::to_string` writes for a map of strings
/// holding `entries` (keys distinct).
pub uninterp spec fn json_string_map(entries: Seq<(Seq<char>, Seq<char>)>) -> Seq<char>;

/// What `serde_json::from_str::<BTreeMap<String, String>>` gives for `text`:
/// the members in key order, or, when the text is not an object of strings,
/// the message of its error.
pub uninterp spec fn parsed_string_map(text: Seq<char>) -> Result<Seq<(Seq<char>, Seq<char>)>, Seq<char>>;

/// The JSON string literal that `serde_json::to_string` writes for `s`:
/// quoted, with the characters JSON requires escaped.
pub uninterp spec fn json_string(s: Seq<char>) -> Seq<char>;

/// What `serde_json::from_str::<Vec<Value>>` reads from `text`, keeping of
/// each element the hosts of its first matcher (`match[0].host`): none when
/// that is no array, else each entry, when it is a string. When the text is
/// no JSON array, the message of the parser's error.
pub uninterp spec fn route_listing(text: Seq<char>) -> Result<Seq<Option<Seq<Option<Seq<char>>>>>, Seq<char>>;

/// The plain views of a list of strings.
pub open spec fn views(items: Seq<String>) -> Seq<Seq<char>> {
    items.map_values(|s: String| s@)
}

/// The plain views of a list of string pairs.
pub open spec fn pair_views(items: Seq<(String, String)>) -> Seq<(Seq<char>, Seq<char>)> {
    items.map_values(|p: (String, String)| (p.0@, p.1@))
}

/// `serde_json::to_string` on a list of strings; writing a `Vec<String>` cannot
/// fail, and the text is named by `json_string_list`.
#[verifier::external_body]
pub(crate) fn write_string_list(items: &Vec<String>) -> (text: String)
    ensures
        text@ == json_string_list(views(items@)),
{
    serde_json::to_string(items).unwrap_or_default()
}

/// `serde_json::to_string` on a string; writing a string cannot fail.
#[verifier::external_body]
pub(crate) fn write_json_string(s: &str) -> (text: String)
    ensures
        text@ == json_string(s@),
{
    serde_json::to_string(s).unwrap_or_default()
}

/// The plain view of a route listing's host entries.
pub open spec fn listing_views(routes: Seq<Option<Vec<Option<String>>>>) -> Seq<Option<Seq<Option<Seq<char>>>>> {
    routes.map_values(
        |r: Option<Vec<Option<String>>>|
            match r {
                Some(hs) => Some(
                    hs@.map_values(
                        |h: Option<String>|
                            match h {
                                Some(x) => Some(x@),
                                None => None,
                            },
                    ),
                ),
                None => None,
            },
    )
}

/// `serde_json::from_str::<Vec<Value>>`, then of each element the entries
/// of `match[0].host` when that is an array (each a string or not); named
/// by `route_listing`.
#[verifier::external_body]
pub(crate) fn read_route_listing(text: &str) -> (r: Result<Vec<Option<Vec<Option<String>>>>, String>)
    ensures
        match r {
            Ok(v) => route_listing(text@) == Ok::<_, Seq<char>>(listing_views(v@)),
            Err(m) => route_listing(text@) == Err::<Seq<Option<Seq<Option<Seq<char>>>>>, _>(m@),
        },
{
    match serde_json::from_str::<Vec<serde_json::Value>>(text) {
        Err(e) => Err(e.to_string()),
        Ok(routes) => Ok(routes.iter().map(|r| r["match"][0]["host"].as_array().map(
            |hs| hs.iter().map(|h| h.as_str().map(|x| x.to_string())).collect(),
        )).collect()),
    }
}

/// `serde_json::from_str::<Value>`, keeping the members of an object: each key
/// with its value when the value is a string.
#[verifier::external_body]
pub(crate) fn read_object_members(text: &str) -> (r: Option<Vec<(String, Option<String>)>>)
    ensures
        r is Some <==> parsed_object_members(text@) is Some,
        r matches Some(v) ==> v@.len() == parsed_object_members(text@)->0.len()
            && forall|i: int|
            0 <= i < v@.len() ==> (#[trigger] v@[i]).0@ == parsed_object_members(text@)->0[i].0
                && match v@[i].1 {
                Some(s) => parsed_object_members(text@)->0[i].1 == Some(s@),
                None => parsed_object_members(text@)->0[i].1 is None,
            },
{
    match serde_json::from_str::<serde_json::Value>(text) {
        Ok(serde_json::Value::Object(map)) => Some(
            map.into_iter().map(|(k, v)| (k, v.as_str().map(String::from))).collect(),
        ),
        _ => None,
    }
}

/// `serde_json::to_string` on a `BTreeMap<String, String>` built from `entries`.
#[verifier::external_body]
pub(crate) fn write_string_map(entries: &Vec<(String, String)>) -> (text: String)
    ensures
        text@ == json_string_map(pair_views(entries@)),
{
    let map: std::collections::BTreeMap<String, String> = entries.iter().cloned().collect();
    serde_json::to_string(&map).unwrap_or_default()
}

/// `serde_json::from_str::<BTreeMap<String, String>>`, with the parser's
/// message on failure.
#[verifier::external_body]
pub(crate) fn read_string_map(text: &str) -> (r: Result<Vec<(String, String)>, String>)
    ensures
        match r {
            Ok(v) => parsed_string_map(text@) == Ok::<Seq<(Seq<char>, Seq<char>)>, Seq<char>>(pair_views(v@)),
            Err(m) => parsed_string_map(text@) == Err::<Seq<(Seq<char>, Seq<char>)>, Seq<char>>(m@),
        },
{
    match serde_json::from_str::<std::collections::BTreeMap<String, String>>(text) {
        Ok(m) => Ok(m.into_iter().collect()),
        Err(e) => Err(e.to_string()),
    }
}

} // verus!
