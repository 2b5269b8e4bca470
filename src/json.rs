//! Reading values out of JSON documents by a path of object keys.

use vstd::prelude::*;

verus! {

/// The kind of a JSON value, with the text of a string value and the truth
/// value of a boolean.
#[derive(Debug, Clone, PartialEq, Eq)]
pub enum JsonNode {
    Null,
    Bool(bool),
    Number,
    Str(String),
    Array,
    Object,
}

/// A JSON node by its view.
pub enum JsonView {
    Null,
    Bool(bool),
    Number,
    Str(Seq<char>),
    Array,
    Object,
}

impl JsonNode {
    pub open spec fn view(&self) -> JsonView {
        match self {
            JsonNode::Null => JsonView::Null,
            JsonNode::Bool(b) => JsonView::Bool(*b),
            JsonNode::Number => JsonView::Number,
            JsonNode::Str(s) => JsonView::Str(s@),
            JsonNode::Array => JsonView::Array,
            JsonNode::Object => JsonView::Object,
        }
    }
}

/// What stands in the JSON document `text` at the end of the key path
/// `path`: none where the text is not JSON, or where some step is not an
/// object or lacks the key. The empty path names the whole document.
pub uninterp spec fn json_node_at(text: Seq<char>, path: Seq<Seq<char>>) -> Option<JsonView>;

/// The views of a sequence of keys.
pub open spec fn key_views(keys: Seq<&str>) -> Seq<Seq<char>> {
    keys.map_values(|k: &str| k@)
}

/// Relies on serde_json::from_str, to parse the text into a Value, and on
/// Value::get with a string key, which yields the member of an object and
/// nothing for any other value.
#[verifier::external_body]
pub(crate) fn json_lookup(text: &str, path: &[&str]) -> (r: Option<JsonNode>)
    ensures
        match r {
            Some(n) => json_node_at(text@, key_views(path@)) == Some(n.view()),
            None => json_node_at(text@, key_views(path@)) is None,
        },
{
    let doc: serde_json::Value = serde_json::from_str(text).ok()?;
    let node = path.iter().try_fold(&doc, |v, k| v.get(*k))?;
    Some(match node {
        serde_json::Value::Null => JsonNode::Null,
        serde_json::Value::Bool(b) => JsonNode::Bool(*b),
        serde_json::Value::Number(_) => JsonNode::Number,
        serde_json::Value::String(s) => JsonNode::Str(s.clone()),
        serde_json::Value::Array(_) => JsonNode::Array,
        serde_json::Value::Object(_) => JsonNode::Object,
    })
}

/// The string at `path` in `text`, if a string stands there.
pub open spec fn json_str_at(text: Seq<char>, path: Seq<Seq<char>>) -> Option<Seq<char>> {
    match json_node_at(text, path) {
        Some(JsonView::Str(s)) => Some(s),
        _ => None,
    }
}

/// Whether `text` is a JSON document.
pub open spec fn json_valid(text: Seq<char>) -> bool {
    json_node_at(text, Seq::empty()) is Some
}

/// The string at the end of the key path, if a string stands there.
pub fn string_at(text: &str, path: &[&str]) -> (r: Option<String>)
    ensures
        r matches Some(s) ==> json_str_at(text@, key_views(path@)) == Some(s@),
        r is None ==> json_str_at(text@, key_views(path@)) is None,
{
    match json_lookup(text, path) {
        Some(JsonNode::Str(s)) => Some(s),
        _ => None,
    }
}

/// Whether the text is a JSON document.
pub fn is_json(text: &str) -> (r: bool)
    ensures
        r == json_valid(text@),
{
    let empty: [&str; 0] = [];
    let r = json_lookup(text, &empty);
    assert(key_views(empty@) =~= Seq::<Seq<char>>::empty());
    r.is_some()
}

} // verus!
