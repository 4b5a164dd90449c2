//! Extraction: viewing a YAML node as a mapping, a sequence, a string, a
//! boolean or a number, or saying what was found in its place. Nothing here
//! knows of positions or diagnostics beyond turning a mismatch into one.
use super::ast::PossumNodeKind;
use super::yaml::{Yaml, YamlKind, YamlNode};
use crate::document::{Annotation, AnnotationLevel, AnnotationView, AsDocumentPointer};
use crate::text::{
    begins_with, characters, holds, integer_from_radix, integer_in_radix, occurs, remove_all,
    without,
};
use vstd::prelude::*;

verus! {

/// What a parser was ready to take: one class of node, or any of several.
#[derive(Debug)]
pub enum ExpectedYaml {
    Only(YamlKind),
    AnyOf(Vec<YamlKind>),
}

/// An `ExpectedYaml` as plain values.
pub enum ExpectedView {
    Only(YamlKind),
    AnyOf(Seq<YamlKind>),
}

impl View for ExpectedYaml {
    type V = ExpectedView;

    open spec fn view(&self) -> ExpectedView {
        match self {
            ExpectedYaml::Only(kind) => ExpectedView::Only(*kind),
            ExpectedYaml::AnyOf(kinds) => ExpectedView::AnyOf(kinds@),
        }
    }
}

/// The names of `kinds` with a comma and a space between neighbours.
pub open spec fn listed(kinds: Seq<YamlKind>) -> Seq<char>
    decreases kinds.len(),
{
    if kinds.len() == 0 {
        Seq::empty()
    } else if kinds.len() == 1 {
        kinds[0].text()
    } else {
        listed(kinds.drop_last()) + ", "@ + kinds.last().text()
    }
}

impl ExpectedView {
    /// How an expectation is shown: the one name, or the names listed in
    /// square brackets.
    pub open spec fn text(self) -> Seq<char> {
        match self {
            ExpectedView::Only(kind) => kind.text(),
            ExpectedView::AnyOf(kinds) => "["@ + listed(kinds) + "]"@,
        }
    }

    /// Whether a node of class `kind` meets the expectation.
    pub open spec fn admits(self, kind: YamlKind) -> bool {
        match self {
            ExpectedView::Only(only) => only == kind,
            ExpectedView::AnyOf(kinds) => kinds.contains(kind),
        }
    }
}

/// The message for a node of class `found` where `expected` was asked for.
pub open spec fn mismatch_text(expected: ExpectedView, found: YamlKind) -> Seq<char> {
    "expected "@ + expected.text() + " but found "@ + found.text()
}

/// The diagnostic that reports such a node at `pointer`.
pub open spec fn mismatch_note<P: AsDocumentPointer>(
    expected: ExpectedView,
    found: YamlKind,
    pointer: P,
) -> AnnotationView {
    AnnotationView {
        level: AnnotationLevel::Fatal,
        message: mismatch_text(expected, found),
        pointer: pointer.pointer(),
    }
}

/// Anything that stands for one class of YAML node.
pub trait IntoYamlKind {
    spec fn yaml_kind(&self) -> YamlKind;

    fn into_yaml_kind(&self) -> (kind: YamlKind)
        ensures
            kind == self.yaml_kind(),
    ;
}

impl IntoYamlKind for &Yaml {
    open spec fn yaml_kind(&self) -> YamlKind {
        self.kind()
    }

    fn into_yaml_kind(&self) -> (kind: YamlKind) {
        YamlKind::from_yaml(*self)
    }
}

impl IntoYamlKind for YamlNode {
    open spec fn yaml_kind(&self) -> YamlKind {
        self.yaml.kind()
    }

    fn into_yaml_kind(&self) -> (kind: YamlKind) {
        YamlKind::from_yaml(self.yaml())
    }
}

impl IntoYamlKind for &YamlNode {
    open spec fn yaml_kind(&self) -> YamlKind {
        self.yaml.kind()
    }

    fn into_yaml_kind(&self) -> (kind: YamlKind) {
        YamlKind::from_yaml(self.yaml())
    }
}

impl IntoYamlKind for YamlKind {
    open spec fn yaml_kind(&self) -> YamlKind {
        *self
    }

    fn into_yaml_kind(&self) -> (kind: YamlKind) {
        *self
    }
}

impl ExpectedYaml {
    /// Pairs the expectation with what was found in its place.
    pub fn but_found<Y: IntoYamlKind>(self, n: Y) -> (mismatch: UnexpectedYaml)
        ensures
            mismatch.expected == self,
            mismatch.unexpected == n.yaml_kind(),
    {
        UnexpectedYaml { expected: self, unexpected: n.into_yaml_kind() }
    }

    /// Whether a node of class `kind` meets the expectation.
    pub fn admits(&self, kind: &YamlKind) -> (admits: bool)
        ensures
            admits == self@.admits(*kind),
    {
        match self {
            ExpectedYaml::Only(only) => *only == *kind,
            ExpectedYaml::AnyOf(kinds) => {
                let mut i: usize = 0;
                while i < kinds.len()
                    invariant
                        0 <= i <= kinds@.len(),
                        forall|j: int| 0 <= j < i ==> kinds@[j] != *kind,
                        self@ == ExpectedView::AnyOf(kinds@),
                    decreases kinds@.len() - i,
                {
                    if kinds[i] == *kind {
                        assert(kinds@[i as int] == *kind);
                        return true;
                    }
                    i += 1;
                }
                false
            },
        }
    }

    pub fn to_string(&self) -> (shown: String)
        ensures
            shown@ == self@.text(),
    {
        match self {
            ExpectedYaml::Only(kind) => kind.to_string(),
            ExpectedYaml::AnyOf(kinds) => {
                let mut shown = String::from_str("[");
                let mut i: usize = 0;
                while i < kinds.len()
                    invariant
                        0 <= i <= kinds@.len(),
                        shown@ == "["@ + listed(kinds@.take(i as int)),
                    decreases kinds@.len() - i,
                {
                    proof {
                        assert(kinds@.take(i + 1).drop_last() =~= kinds@.take(i as int));
                    }
                    if i > 0 {
                        shown = shown.concat(", ");
                    }
                    let name = kinds[i].to_string();
                    shown = shown.concat(name.as_str());
                    proof {
                        if i == 0 {
                            assert(listed(kinds@.take(0)) =~= Seq::<char>::empty());
                            assert(shown@ =~= "["@ + listed(kinds@.take(1)));
                        } else {
                            assert(shown@ =~= "["@ + listed(kinds@.take(i + 1)));
                        }
                    }
                    i += 1;
                }
                proof {
                    assert(kinds@.take(i as int) =~= kinds@);
                }
                shown.concat("]")
            },
        }
    }
}

/// A node of one class where another was expected.
#[derive(Debug)]
pub struct UnexpectedYaml {
    pub expected: ExpectedYaml,
    pub unexpected: YamlKind,
}

impl UnexpectedYaml {
    /// The message of this mismatch.
    pub open spec fn text(self) -> Seq<char> {
        mismatch_text(self.expected@, self.unexpected)
    }

    pub fn to_string(&self) -> (shown: String)
        ensures
            shown@ == self.text(),
    {
        let expected = self.expected.to_string();
        let found = self.unexpected.to_string();
        String::from_str("expected ").concat(expected.as_str()).concat(" but found ").concat(
            found.as_str(),
        )
    }

    /// The diagnostic that reports this mismatch at `at`. It is `Fatal`: the
    /// value there is not to be trusted.
    pub fn at<P: AsDocumentPointer>(self, at: &P) -> (note: Annotation)
        ensures
            note@ == mismatch_note(self.expected@, self.unexpected, *at),
    {
        let message = self.to_string();
        Annotation::fatal(at, message.as_str())
    }
}

/// A number as YAML writes it. An integer is read; the text of a float is
/// kept as it stands.
#[derive(Debug)]
pub enum Number {
    Integer(i64),
    Real(String),
}

/// The integer that the literal `raw` stands for: hexadecimal behind `0x`,
/// octal behind `0o`, decimal otherwise. The marker is taken out wherever it
/// occurs in the literal.
pub open spec fn integer_of(raw: Seq<char>) -> Option<i64> {
    if "0x"@.is_prefix_of(raw) {
        integer_in_radix(without(raw, "0x"@), 16)
    } else if "0o"@.is_prefix_of(raw) {
        integer_in_radix(without(raw, "0o"@), 8)
    } else {
        integer_in_radix(raw, 10)
    }
}

/// Reads an integer literal, which may be hexadecimal (`0x`) or octal (`0o`).
pub fn i64_from_yaml(raw: &str) -> (value: Option<i64>)
    ensures
        value == integer_of(raw@),
{
    proof {
        reveal_strlit("0x");
        reveal_strlit("0o");
    }
    let literal = characters(raw);
    let hexadecimal = characters("0x");
    let octal = characters("0o");
    if begins_with(literal.as_slice(), hexadecimal.as_slice()) {
        let digits = remove_all(literal.as_slice(), hexadecimal.as_slice());
        integer_from_radix(digits.as_slice(), 16)
    } else if begins_with(literal.as_slice(), octal.as_slice()) {
        let digits = remove_all(literal.as_slice(), octal.as_slice());
        integer_from_radix(digits.as_slice(), 8)
    } else {
        integer_from_radix(literal.as_slice(), 10)
    }
}

/// The integer that the literal `raw` of a node stands for: hexadecimal where
/// `0x` occurs in it, octal where `0o` occurs in it, decimal otherwise. The
/// marker may stand behind a sign, and is taken out wherever it occurs.
pub open spec fn node_integer_of(raw: Seq<char>) -> Option<i64> {
    if occurs("0x"@, raw) {
        integer_in_radix(without(raw, "0x"@), 16)
    } else if occurs("0o"@, raw) {
        integer_in_radix(without(raw, "0o"@), 8)
    } else {
        integer_in_radix(raw, 10)
    }
}

/// Reads the integer literal of a node, which may be hexadecimal (`0x`) or
/// octal (`0o`) and may be signed.
pub fn i64_from_node(raw: &str) -> (value: Option<i64>)
    ensures
        value == node_integer_of(raw@),
{
    proof {
        reveal_strlit("0x");
        reveal_strlit("0o");
    }
    let literal = characters(raw);
    let hexadecimal = characters("0x");
    let octal = characters("0o");
    if holds(literal.as_slice(), hexadecimal.as_slice()) {
        let digits = remove_all(literal.as_slice(), hexadecimal.as_slice());
        integer_from_radix(digits.as_slice(), 16)
    } else if holds(literal.as_slice(), octal.as_slice()) {
        let digits = remove_all(literal.as_slice(), octal.as_slice());
        integer_from_radix(digits.as_slice(), 8)
    } else {
        integer_from_radix(literal.as_slice(), 10)
    }
}

/// What an accessor yields: the typed view, or the mismatch.
pub type Extraction<T> = Result<T, UnexpectedYaml>;

/// `found` is the mismatch of `expected` against a node of class `kind`.
pub open spec fn mismatches(found: UnexpectedYaml, expected: YamlKind, kind: YamlKind) -> bool {
    found.expected@ == ExpectedView::Only(expected) && found.unexpected == kind
}

impl Yaml {
    /// `extraction` is this content seen as a mapping.
    pub open spec fn seen_as_map(
        self,
        extraction: Extraction<&Vec<(YamlNode, YamlNode)>>,
    ) -> bool {
        match self {
            Yaml::Mapping(pairs) => extraction == Ok::<&Vec<(YamlNode, YamlNode)>, UnexpectedYaml>(
                &pairs,
            ),
            _ => extraction matches Err(found) && mismatches(
                found,
                YamlKind::Mapping,
                self.kind(),
            ),
        }
    }

    /// `extraction` is this content seen as a sequence.
    pub open spec fn seen_as_seq(self, extraction: Extraction<&Vec<YamlNode>>) -> bool {
        match self {
            Yaml::Sequence(items) => extraction == Ok::<&Vec<YamlNode>, UnexpectedYaml>(&items),
            _ => extraction matches Err(found) && mismatches(
                found,
                YamlKind::Sequence,
                self.kind(),
            ),
        }
    }

    /// `extraction` is this content seen as a string.
    pub open spec fn seen_as_str(self, extraction: Extraction<&str>) -> bool {
        match self {
            Yaml::Str(text) => extraction matches Ok(seen) && seen@ == text@,
            _ => extraction matches Err(found) && mismatches(found, YamlKind::Str, self.kind()),
        }
    }

    /// `extraction` is this content seen as a boolean.
    pub open spec fn seen_as_bool(self, extraction: Extraction<bool>) -> bool {
        match self {
            Yaml::Bool(value) => extraction == Ok::<bool, UnexpectedYaml>(value),
            _ => extraction matches Err(found) && mismatches(found, YamlKind::Bool, self.kind()),
        }
    }

    /// `extraction` is this content seen as a number. An integer literal that
    /// cannot be read is reported as a string found where a number was
    /// expected.
    pub open spec fn seen_as_number(self, extraction: Extraction<Number>) -> bool {
        match self {
            Yaml::Int(raw) => match integer_of(raw@) {
                Some(value) => extraction == Ok::<Number, UnexpectedYaml>(Number::Integer(value)),
                None => extraction matches Err(found) && mismatches(
                    found,
                    YamlKind::Number,
                    YamlKind::Str,
                ),
            },
            Yaml::Float(raw) => extraction == Ok::<Number, UnexpectedYaml>(Number::Real(raw)),
            _ => extraction matches Err(found) && mismatches(
                found,
                YamlKind::Number,
                self.kind(),
            ),
        }
    }

    /// `extraction` is this content seen as a number where it is the content
    /// of a node. The literal of an integer may then be signed in front of
    /// its marker, and one that cannot be read is reported as the number
    /// that it was found as.
    pub open spec fn seen_as_node_number(self, extraction: Extraction<Number>) -> bool {
        match self {
            Yaml::Int(raw) => match node_integer_of(raw@) {
                Some(value) => extraction == Ok::<Number, UnexpectedYaml>(Number::Integer(value)),
                None => extraction matches Err(found) && mismatches(
                    found,
                    YamlKind::Number,
                    YamlKind::Number,
                ),
            },
            Yaml::Float(raw) => extraction == Ok::<Number, UnexpectedYaml>(Number::Real(raw)),
            _ => extraction matches Err(found) && mismatches(
                found,
                YamlKind::Number,
                self.kind(),
            ),
        }
    }
}

/// The typed views of a YAML node.
pub trait Extract {
    /// The content that the views are taken of.
    spec fn content(&self) -> Yaml;

    /// Whether `extraction` is the content seen as a number.
    spec fn number_seen(&self, extraction: Extraction<Number>) -> bool;

    fn extract_map(&self) -> (extraction: Extraction<&Vec<(YamlNode, YamlNode)>>)
        ensures
            self.content().seen_as_map(extraction),
    ;

    fn extract_str(&self) -> (extraction: Extraction<&str>)
        ensures
            self.content().seen_as_str(extraction),
    ;

    fn extract_seq(&self) -> (extraction: Extraction<&Vec<YamlNode>>)
        ensures
            self.content().seen_as_seq(extraction),
    ;

    fn extract_bool(&self) -> (extraction: Extraction<bool>)
        ensures
            self.content().seen_as_bool(extraction),
    ;

    fn extract_number(&self) -> (extraction: Extraction<Number>)
        ensures
            self.number_seen(extraction),
    ;
}

impl Extract for YamlNode {
    open spec fn content(&self) -> Yaml {
        self.yaml
    }

    open spec fn number_seen(&self, extraction: Extraction<Number>) -> bool {
        self.yaml.seen_as_node_number(extraction)
    }

    fn extract_map(&self) -> (extraction: Extraction<&Vec<(YamlNode, YamlNode)>>) {
        self.yaml().extract_map()
    }

    fn extract_str(&self) -> (extraction: Extraction<&str>) {
        let seen = self.yaml().extract_str();
        assert(self.content() == self.yaml);
        seen
    }

    fn extract_seq(&self) -> (extraction: Extraction<&Vec<YamlNode>>) {
        self.yaml().extract_seq()
    }

    fn extract_bool(&self) -> (extraction: Extraction<bool>) {
        self.yaml().extract_bool()
    }

    fn extract_number(&self) -> (extraction: Extraction<Number>) {
        let extraction = match self.yaml() {
            Yaml::Int(raw) => match i64_from_node(raw.as_str()) {
                Some(i) => Ok(Number::Integer(i)),
                None => Err(ExpectedYaml::Only(YamlKind::Number).but_found(self)),
            },
            Yaml::Float(raw) => Ok(Number::Real(raw.clone())),
            _ => Err(ExpectedYaml::Only(YamlKind::Number).but_found(self)),
        };
        assert(self.number_seen(extraction));
        extraction
    }
}

impl Extract for Yaml {
    open spec fn content(&self) -> Yaml {
        *self
    }

    open spec fn number_seen(&self, extraction: Extraction<Number>) -> bool {
        self.seen_as_number(extraction)
    }

    fn extract_map(&self) -> (extraction: Extraction<&Vec<(YamlNode, YamlNode)>>) {
        match self {
            Yaml::Mapping(m) => Ok(m),
            _ => Err(ExpectedYaml::Only(YamlKind::Mapping).but_found(self)),
        }
    }

    fn extract_str(&self) -> (extraction: Extraction<&str>) {
        match self {
            Yaml::Str(s) => {
                assert(self.content() == *self);
                Ok(s.as_str())
            },
            _ => Err(ExpectedYaml::Only(YamlKind::Str).but_found(self)),
        }
    }

    fn extract_seq(&self) -> (extraction: Extraction<&Vec<YamlNode>>) {
        match self {
            Yaml::Sequence(s) => Ok(s),
            _ => Err(ExpectedYaml::Only(YamlKind::Sequence).but_found(self)),
        }
    }

    fn extract_bool(&self) -> (extraction: Extraction<bool>) {
        match self {
            Yaml::Bool(true) => Ok(true),
            Yaml::Bool(false) => Ok(false),
            _ => Err(ExpectedYaml::Only(YamlKind::Bool).but_found(self)),
        }
    }

    fn extract_number(&self) -> (extraction: Extraction<Number>) {
        match self {
            Yaml::Int(raw) => match i64_from_yaml(raw.as_str()) {
                Some(i) => Ok(Number::Integer(i)),
                None => Err(ExpectedYaml::Only(YamlKind::Number).but_found(YamlKind::Str)),
            },
            Yaml::Float(raw) => Ok(Number::Real(raw.clone())),
            _ => Err(ExpectedYaml::Only(YamlKind::Number).but_found(self)),
        }
    }
}

/// `kind` is what a parser makes of `extraction`: the value, or an `Invalid`
/// that holds the mismatch's message.
pub open spec fn kind_of_extraction<T>(extraction: Extraction<T>, kind: PossumNodeKind<T>) -> bool {
    match extraction {
        Ok(value) => kind == PossumNodeKind::Value(value),
        Err(found) => kind matches PossumNodeKind::Invalid(message) && message@ == found.text(),
    }
}

impl<T> PossumNodeKind<T> {
    /// Turns an extraction into a node kind: a mismatch becomes `Invalid`.
    pub fn from_extraction(extraction: Extraction<T>) -> (kind: PossumNodeKind<T>)
        ensures
            kind_of_extraction(extraction, kind),
    {
        match extraction {
            Ok(t) => PossumNodeKind::Value(t),
            Err(u) => PossumNodeKind::Invalid(u.to_string()),
        }
    }
}

} // verus!
