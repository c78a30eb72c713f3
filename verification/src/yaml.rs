//! Reading YAML text with `serde_yaml`.

use crate::document::{Node, Source};
use serde_yaml::Value;
use vstd::prelude::*;

verus! {

/// `serde_yaml::Value`, carried as it is: nothing is known of what it holds.
#[verifier::external_type_specification]
#[verifier::external_body]
pub struct ExValue(serde_yaml::Value);

/// What reading the first document of a YAML text gives: one result for one
/// text.
pub uninterp spec fn yaml_first_document(text: Seq<char>) -> Source;

/// Copies a `serde_yaml::Value` into a [`Node`], variant by variant and item
/// by item. Of a number it takes what `Number::as_u64` gives, and what
/// `Number::as_f64` gives as `Display` writes it. Nothing is claimed of the
/// result.
#[verifier::external_body]
fn node_of(value: &Value) -> Node {
    match value {
        Value::Null => Node::Null,
        Value::Bool(b) => Node::Bool(*b),
        Value::Number(n) => Node::Number {
            unsigned: n.as_u64(),
            decimal: n.as_f64().unwrap_or_default().to_string(),
        },
        Value::String(s) => Node::Text(s.clone()),
        Value::Sequence(items) => Node::Sequence(items.iter().map(node_of).collect()),
        Value::Mapping(m) => Node::Mapping(m.iter().map(|(k, v)| (node_of(k), node_of(v))).collect()),
        Value::Tagged(t) => Node::Tagged(Box::new(node_of(&t.value))),
    }
}

/// Reads the first document of `text`: `serde_yaml::Deserializer::from_str`
/// and the first item of its iteration, then
/// `serde_path_to_error::deserialize` into a `serde_yaml::Value`. The
/// contract claims only that the result depends on the text alone. Where the
/// iteration gives nothing the source is absent; where reading fails it is
/// malformed, with the path and the message of the error.
#[verifier::external_body]
pub(crate) fn first_document(text: &str) -> (source: Source)
    ensures
        source == yaml_first_document(text@),
{
    match serde_yaml::Deserializer::from_str(text).next() {
        None => Source::Absent,
        Some(first) => match serde_path_to_error::deserialize::<_, Value>(first) {
            Ok(value) => Source::Tree(node_of(&value)),
            Err(e) => Source::Malformed { path: e.path().to_string(), cause: e.to_string() },
        },
    }
}

} // verus!
