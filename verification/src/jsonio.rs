//! JSON reading and writing through serde_json. Each trusted item below
//! carries plain values across the boundary in one step, so that what comes
//! back is a function of plain arguments and can be named in contracts.

use vstd::prelude::*;

verus! {

#[verifier::external_type_specification]
#[verifier::external_body]
pub struct ExValue(serde_json::Value);

#[verifier::external_type_specification]
#[verifier::external_body]
#[verifier::reject_recursive_types(K)]
#[verifier::reject_recursive_types(V)]
pub struct ExJsonMap<K, V>(serde_json::Map<K, V>);

/// The string-valued members of a JSON object document, in stored order;
/// `None` exactly when the text is not valid JSON, and the empty sequence
/// for a document that is no object. A function of the text alone.
pub uninterp spec fn string_members_of(text: Seq<char>) -> Option<Seq<(Seq<char>, Seq<char>)>>;

/// Relies on `serde_json::from_str::<Value>`, `Value::as_object` and the
/// `Value::String` variant: decodes a document and hands its string-valued
/// members out as plain pairs, in stored order; `None` exactly when the
/// text is not valid JSON.
#[verifier::external_body]
pub(crate) fn json_string_members(text: &str) -> (r: Option<Vec<(String, String)>>)
    ensures
        match r {
            Some(v) => string_members_of(text@) == Some(v.deep_view()),
            None => string_members_of(text@) is None,
        },
{
    let value: serde_json::Value = match serde_json::from_str(text) {
        Ok(v) => v,
        Err(_) => return None,
    };
    let mut out: Vec<(String, String)> = Vec::new();
    for (key, member) in value.as_object().into_iter().flatten() {
        match member {
            serde_json::Value::String(s) => out.push((key.clone(), s.clone())),
            _ => {},
        }
    }
    Some(out)
}

/// The compact JSON object holding the pairs, a later pair overriding an
/// earlier one with the same key and keys sorted by the map. A function of
/// the pairs alone.
pub uninterp spec fn json_object_text_of(entries: Seq<(Seq<char>, Seq<char>)>) -> Seq<char>;

/// Relies on `serde_json::Map::insert` and `serde_json::to_string`: builds
/// a string-keyed object from the pairs and renders it compactly. An object
/// with string keys always serializes.
#[verifier::external_body]
pub(crate) fn json_object_text(entries: &Vec<(String, String)>) -> (r: String)
    ensures
        r@ == json_object_text_of(entries.deep_view()),
{
    let mut m = serde_json::Map::new();
    for (key, value) in entries {
        m.insert(key.clone(), serde_json::Value::String(value.clone()));
    }
    serde_json::to_string(&m).unwrap_or_default()
}

/// Relies on `serde_json::from_str::<Map<String, Value>>`: decodes JSON text
/// that holds an object; `None` when the text is not a valid JSON object.
#[verifier::external_body]
pub(crate) fn json_parse_object(text: &str) -> Option<serde_json::Map<String, serde_json::Value>> {
    serde_json::from_str(text).ok()
}

/// Relies on `serde_json::Map::new`: the empty object.
#[verifier::external_body]
pub(crate) fn json_map_new() -> serde_json::Map<String, serde_json::Value> {
    serde_json::Map::new()
}

/// Relies on `serde_json::Map::insert`: adds or replaces the member under
/// the key with a JSON string value.
#[verifier::external_body]
pub(crate) fn json_map_insert_string(
    m: &mut serde_json::Map<String, serde_json::Value>,
    key: &str,
    value: &str,
) {
    m.insert(key.to_string(), serde_json::Value::String(value.to_string()));
}

/// Relies on `serde_json::to_string_pretty`: renders an object as indented
/// JSON text; an object with string keys always renders.
#[verifier::external_body]
pub(crate) fn json_map_to_string_pretty(m: &serde_json::Map<String, serde_json::Value>) -> Option<
    String,
> {
    serde_json::to_string_pretty(m).ok()
}

/// Set one string member of a JSON object document and render it back,
/// indented. A document that does not parse as an object is treated as the
/// empty object, so the result always holds the new member.
pub fn set_json_string_key(content: &str, key: &str, value: &str) -> Option<String> {
    let mut m = match json_parse_object(content) {
        Some(m) => m,
        None => json_map_new(),
    };
    json_map_insert_string(&mut m, key, value);
    json_map_to_string_pretty(&m)
}

} // verus!
