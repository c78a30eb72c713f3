//! Documents as trees of plain values.

use crate::text::same_text;
use vstd::prelude::*;

verus! {

/// One node of a structured document, held as plain values.
#[derive(Debug, PartialEq, Eq)]
pub enum Node {
    Null,
    Bool(bool),
    /// A number: its value as an unsigned integer where it is one, and the
    /// notation of its value as a real number.
    Number { unsigned: Option<u64>, decimal: String },
    Text(String),
    Sequence(Vec<Node>),
    /// The entries of a mapping, in document order, each a key and a value.
    Mapping(Vec<(Node, Node)>),
    /// A value behind a tag of the document's own.
    Tagged(Box<Node>),
}

/// What reading the first document of an input text gave.
#[derive(Debug, PartialEq, Eq)]
pub enum Source {
    /// The input holds no document.
    Absent,
    /// The document is not well-formed; `path` points at the failure.
    Malformed { path: String, cause: String },
    /// The document's tree.
    Tree(Node),
}

impl Node {
    /// The name of this node's kind, as messages give it.
    pub open spec fn kind_of(self) -> Seq<char> {
        match self {
            Node::Null => "null"@,
            Node::Bool(_) => "boolean"@,
            Node::Number { .. } => "number"@,
            Node::Text(_) => "string"@,
            Node::Sequence(_) => "sequence"@,
            Node::Mapping(_) => "mapping"@,
            Node::Tagged(_) => "tagged value"@,
        }
    }

    /// The name of this node's kind.
    pub fn kind(&self) -> (name: &'static str)
        ensures
            name@ == self.kind_of(),
    {
        match self {
            Node::Null => "null",
            Node::Bool(_) => "boolean",
            Node::Number { .. } => "number",
            Node::Text(_) => "string",
            Node::Sequence(_) => "sequence",
            Node::Mapping(_) => "mapping",
            Node::Tagged(_) => "tagged value",
        }
    }
}

/// Whether `key` is the text `name`.
pub open spec fn is_key(key: Node, name: Seq<char>) -> bool {
    key matches Node::Text(text) && text@ == name
}

/// The value of the first entry whose key is the text `name`.
pub open spec fn find_field(entries: Seq<(Node, Node)>, name: Seq<char>) -> Option<Node>
    decreases entries.len(),
{
    if entries.len() == 0 {
        None
    } else if is_key(entries[0].0, name) {
        Some(entries[0].1)
    } else {
        find_field(entries.skip(1), name)
    }
}

/// The node behind a reference that a lookup gave.
pub open spec fn deref_node(found: Option<&Node>) -> Option<Node> {
    match found {
        Some(node) => Some(*node),
        None => None,
    }
}

/// Looks up the value of the first entry whose key is the text `name`.
pub fn field<'a>(entries: &'a Vec<(Node, Node)>, name: &str) -> (value: Option<&'a Node>)
    ensures
        deref_node(value) == find_field(entries@, name@),
{
    let mut i: usize = 0;
    assert(entries@.skip(0) =~= entries@);
    while i < entries.len()
        invariant
            i <= entries.len(),
            find_field(entries@, name@) == find_field(entries@.skip(i as int), name@),
        decreases entries.len() - i,
    {
        let entry = &entries[i];
        let found = match &entry.0 {
            Node::Text(text) => same_text(text.as_str(), name),
            _ => false,
        };
        assert(entries@.skip(i as int)[0] == entries@[i as int]);
        assert(found == is_key(entries@[i as int].0, name@));
        if found {
            return Some(&entry.1);
        }
        assert(entries@.skip(i as int).skip(1) =~= entries@.skip(i + 1));
        i += 1;
    }
    None
}

} // verus!
