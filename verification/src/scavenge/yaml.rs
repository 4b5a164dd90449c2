//! The generic YAML tree that a tokenizer hands over: every node is classified
//! and carries the byte offset at which it began.
use crate::document::document::pointer_at;
use crate::document::{AsDocumentPointer, DocumentPointer};
use vstd::prelude::*;

verus! {

/// The classes of YAML node that the parsers tell apart.
#[derive(Debug, Copy, Clone, PartialEq, Eq, Structural)]
pub enum YamlKind {
    Mapping,
    Sequence,
    Str,
    Bool,
    Number,
    Alias,
    Null,
}

/// The content of a YAML node. Scalars keep the text they were written as.
#[derive(Debug)]
pub enum Yaml {
    Null,
    Bool(bool),
    Int(String),
    Float(String),
    Str(String),
    /// The items, in source order.
    Sequence(Vec<YamlNode>),
    /// The pairs of key and value, in source order.
    Mapping(Vec<(YamlNode, YamlNode)>),
    Alias(String),
}

/// One node of the YAML tree: its content and the offset of its first byte.
#[derive(Debug)]
pub struct YamlNode {
    pub pos: u64,
    pub yaml: Yaml,
}

impl YamlNode {
    pub fn new(yaml: Yaml, pos: u64) -> (node: YamlNode)
        ensures
            node.pos == pos,
            node.yaml == yaml,
    {
        YamlNode { pos, yaml }
    }

    /// The offset at which the node began.
    pub fn pos(&self) -> (pos: u64)
        ensures
            pos == self.pos,
    {
        self.pos
    }

    pub fn yaml(&self) -> (yaml: &Yaml)
        ensures
            *yaml == self.yaml,
    {
        &self.yaml
    }
}

impl AsDocumentPointer for YamlNode {
    open spec fn pointer(&self) -> DocumentPointer {
        pointer_at(self.pos)
    }

    fn as_document_pointer(&self) -> (pointer: DocumentPointer) {
        DocumentPointer(#[verifier::truncate] (self.pos as usize))
    }
}

impl Yaml {
    /// The class of this content. Integers and floats are both numbers.
    pub open spec fn kind(self) -> YamlKind {
        match self {
            Yaml::Null => YamlKind::Null,
            Yaml::Mapping(_) => YamlKind::Mapping,
            Yaml::Sequence(_) => YamlKind::Sequence,
            Yaml::Bool(_) => YamlKind::Bool,
            Yaml::Int(_) | Yaml::Float(_) => YamlKind::Number,
            Yaml::Str(_) => YamlKind::Str,
            Yaml::Alias(_) => YamlKind::Alias,
        }
    }
}

impl YamlKind {
    /// The name a class is shown under.
    pub open spec fn text(self) -> Seq<char> {
        match self {
            YamlKind::Mapping => "Map"@,
            YamlKind::Sequence => "Seq"@,
            YamlKind::Str => "Str"@,
            YamlKind::Bool => "Bool"@,
            YamlKind::Number => "Number"@,
            YamlKind::Alias => "Alias"@,
            YamlKind::Null => "Null"@,
        }
    }

    fn name(&self) -> (name: &'static str)
        ensures
            name@ == self.text(),
    {
        match self {
            YamlKind::Mapping => "Map",
            YamlKind::Sequence => "Seq",
            YamlKind::Str => "Str",
            YamlKind::Bool => "Bool",
            YamlKind::Number => "Number",
            YamlKind::Alias => "Alias",
            YamlKind::Null => "Null",
        }
    }

    pub fn to_string(&self) -> (shown: String)
        ensures
            shown@ == self.text(),
    {
        String::from_str(self.name())
    }

    pub fn from_yaml_node(n: &YamlNode) -> (kind: YamlKind)
        ensures
            kind == n.yaml.kind(),
    {
        YamlKind::from_yaml(n.yaml())
    }

    pub fn from_yaml(n: &Yaml) -> (kind: YamlKind)
        ensures
            kind == n.kind(),
    {
        match n {
            Yaml::Null => YamlKind::Null,
            Yaml::Mapping(_) => YamlKind::Mapping,
            Yaml::Sequence(_) => YamlKind::Sequence,
            Yaml::Bool(_) => YamlKind::Bool,
            Yaml::Int(_) | Yaml::Float(_) => YamlKind::Number,
            Yaml::Str(_) => YamlKind::Str,
            Yaml::Alias(_) => YamlKind::Alias,
        }
    }
}

} // verus!
