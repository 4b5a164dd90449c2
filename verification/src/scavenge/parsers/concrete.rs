//! The leaf parsers. Each reads one scalar through its accessor and turns a
//! mismatch into `Invalid`. None of them reports anything to the collector.
use crate::document::{AnnotationView, Annotations};
use crate::scavenge::ast::PossumNodeKind;
use crate::scavenge::extraction::{
    mismatch_text, node_integer_of, ExpectedView, Extract, Number,
};
use crate::scavenge::parser::Parser;
use crate::scavenge::yaml::{Yaml, YamlKind, YamlNode};
use std::marker::PhantomData;
use vstd::prelude::*;

verus! {

/// `kind` is `Invalid` and says that content of class `found` stood where
/// `expected` was asked for.
pub open spec fn invalid_for<T>(kind: PossumNodeKind<T>, expected: YamlKind, found: YamlKind) -> bool {
    kind matches PossumNodeKind::Invalid(message) && message@ == mismatch_text(
        ExpectedView::Only(expected),
        found,
    )
}

/// `kind` is what a string parser makes of `yaml`.
pub open spec fn string_kind(yaml: Yaml, kind: PossumNodeKind<String>) -> bool {
    match yaml {
        Yaml::Str(text) => kind matches PossumNodeKind::Value(parsed) && parsed@ == text@,
        _ => invalid_for(kind, YamlKind::Str, yaml.kind()),
    }
}

/// `kind` is what an expression parser makes of `yaml`: the text of a string
/// kept as written, to be evaluated later.
pub open spec fn expr_kind<T>(yaml: Yaml, kind: PossumNodeKind<T>) -> bool {
    match yaml {
        Yaml::Str(text) => kind matches PossumNodeKind::Expr(parsed) && parsed@ == text@,
        _ => invalid_for(kind, YamlKind::Str, yaml.kind()),
    }
}

/// `kind` is what a boolean parser makes of `yaml`.
pub open spec fn bool_kind(yaml: Yaml, kind: PossumNodeKind<bool>) -> bool {
    match yaml {
        Yaml::Bool(value) => kind == PossumNodeKind::Value(value),
        _ => invalid_for(kind, YamlKind::Bool, yaml.kind()),
    }
}

/// `kind` is what a number parser makes of `yaml`, the content of a node.
pub open spec fn number_kind(yaml: Yaml, kind: PossumNodeKind<Number>) -> bool {
    match yaml {
        Yaml::Int(raw) => match node_integer_of(raw@) {
            Some(value) => kind == PossumNodeKind::Value(Number::Integer(value)),
            None => invalid_for(kind, YamlKind::Number, YamlKind::Number),
        },
        Yaml::Float(raw) => kind == PossumNodeKind::Value(Number::Real(raw)),
        _ => invalid_for(kind, YamlKind::Number, yaml.kind()),
    }
}

/// Reads a string.
pub struct StringParser;

impl Parser<String> for StringParser {
    open spec fn ready(&self) -> bool {
        true
    }

    open spec fn parses(
        &self,
        root: &YamlNode,
        kind: PossumNodeKind<String>,
        notes: Seq<AnnotationView>,
    ) -> bool {
        string_kind(root.yaml, kind) && notes.len() == 0
    }

    fn parse_node(&self, root: &YamlNode, annotations: &mut Annotations) -> (kind: PossumNodeKind<
        String,
    >) {
        match root.extract_str() {
            Ok(text) => PossumNodeKind::Value(String::from_str(text)),
            Err(found) => PossumNodeKind::Invalid(found.to_string()),
        }
    }
}

/// Parses a string as an expression of type `T` that is not evaluated here.
#[verifier::reject_recursive_types(T)]
pub struct ExprParser<T>(pub PhantomData<T>);

impl<T> ExprParser<T> {
    pub fn new() -> (parser: ExprParser<T>)
        ensures
            parser.ready(),
    {
        ExprParser(PhantomData)
    }
}

impl<T> Parser<T> for ExprParser<T> {
    open spec fn ready(&self) -> bool {
        true
    }

    open spec fn parses(
        &self,
        root: &YamlNode,
        kind: PossumNodeKind<T>,
        notes: Seq<AnnotationView>,
    ) -> bool {
        expr_kind(root.yaml, kind) && notes.len() == 0
    }

    fn parse_node(&self, root: &YamlNode, annotations: &mut Annotations) -> (kind: PossumNodeKind<
        T,
    >) {
        match StringParser.parse_node(root, annotations) {
            PossumNodeKind::Value(text) => PossumNodeKind::Expr(text),
            PossumNodeKind::Expr(text) => PossumNodeKind::Expr(text),
            PossumNodeKind::Invalid(message) => PossumNodeKind::Invalid(message),
            PossumNodeKind::Empty => PossumNodeKind::Empty,
        }
    }
}

/// Reads a boolean.
pub struct BoolParser;

impl Parser<bool> for BoolParser {
    open spec fn ready(&self) -> bool {
        true
    }

    open spec fn parses(
        &self,
        root: &YamlNode,
        kind: PossumNodeKind<bool>,
        notes: Seq<AnnotationView>,
    ) -> bool {
        bool_kind(root.yaml, kind) && notes.len() == 0
    }

    fn parse_node(&self, root: &YamlNode, annotations: &mut Annotations) -> (kind: PossumNodeKind<
        bool,
    >) {
        PossumNodeKind::from_extraction(root.extract_bool())
    }
}

/// Reads a number.
pub struct NumberParser;

impl Parser<Number> for NumberParser {
    open spec fn ready(&self) -> bool {
        true
    }

    open spec fn parses(
        &self,
        root: &YamlNode,
        kind: PossumNodeKind<Number>,
        notes: Seq<AnnotationView>,
    ) -> bool {
        number_kind(root.yaml, kind) && notes.len() == 0
    }

    fn parse_node(&self, root: &YamlNode, annotations: &mut Annotations) -> (kind: PossumNodeKind<
        Number,
    >) {
        PossumNodeKind::from_extraction(root.extract_number())
    }
}

} // verus!
