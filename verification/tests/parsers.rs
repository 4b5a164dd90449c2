use possum::document::{AnnotationLevel, Annotations, AsDocumentPointer, DocumentPointer};
use possum::scavenge::ast::{PossumMap, PossumNodeKind, PossumSeq};
use possum::scavenge::extraction::Number;
use possum::scavenge::parsers::{
    BoolParser, Builder, ExprParser, FlatMapParser, FlatMappableParser, MapParser,
    MaybeExprParser, NumberParser, ObjectParser, OrParser, OrableParser, Pluralize,
    PluralizableParser, SeqParser, StringMapParser, StringParser, TransformParser,
    TransformableParser,
};
use possum::scavenge::yaml::{Yaml, YamlNode};
use possum::scavenge::{
    parse_loaded, parse_single_document, ParseFailure, Parser, UnexpectedKey,
};

fn text(s: &str, pos: u64) -> YamlNode {
    YamlNode::new(Yaml::Str(s.to_string()), pos)
}

fn integer(s: &str, pos: u64) -> YamlNode {
    YamlNode::new(Yaml::Int(s.to_string()), pos)
}

fn seq(items: Vec<YamlNode>, pos: u64) -> YamlNode {
    YamlNode::new(Yaml::Sequence(items), pos)
}

fn map(pairs: Vec<(YamlNode, YamlNode)>, pos: u64) -> YamlNode {
    YamlNode::new(Yaml::Mapping(pairs), pos)
}

fn message<T: std::fmt::Debug>(kind: &PossumNodeKind<T>) -> &str {
    match kind {
        PossumNodeKind::Invalid(why) => why.as_str(),
        other => panic!("not invalid: {:?}", other),
    }
}

fn every_shape() -> Vec<YamlNode> {
    vec![
        YamlNode::new(Yaml::Null, 0),
        YamlNode::new(Yaml::Bool(false), 1),
        integer("3", 2),
        YamlNode::new(Yaml::Float("3.5".to_string()), 3),
        text("s", 4),
        seq(vec![text("a", 6)], 5),
        map(vec![(text("k", 8), text("v", 9))], 7),
        YamlNode::new(Yaml::Alias("x".to_string()), 10),
    ]
}

#[test]
fn string_parser_takes_strings() {
    let mut notes = Annotations::new();
    match StringParser.parse_node(&text("hello", 0), &mut notes) {
        PossumNodeKind::Value(s) => assert_eq!(s, "hello"),
        other => panic!("{:?}", other),
    }
    let kind = StringParser.parse_node(&integer("3", 0), &mut notes);
    assert_eq!(message(&kind), "expected Str but found Number");
    assert_eq!(notes.entries().len(), 0);
}

#[test]
fn bool_parser_takes_booleans() {
    let mut notes = Annotations::new();
    assert!(matches!(
        BoolParser.parse_node(&YamlNode::new(Yaml::Bool(true), 0), &mut notes),
        PossumNodeKind::Value(true)
    ));
    let kind = BoolParser.parse_node(&text("true", 0), &mut notes);
    assert_eq!(message(&kind), "expected Bool but found Str");
    assert_eq!(notes.entries().len(), 0);
}

#[test]
fn number_parser_takes_numbers() {
    let mut notes = Annotations::new();
    assert!(matches!(
        NumberParser.parse_node(&integer("0o17", 0), &mut notes),
        PossumNodeKind::Value(Number::Integer(15))
    ));
    let kind = NumberParser.parse_node(&seq(vec![], 0), &mut notes);
    assert_eq!(message(&kind), "expected Number but found Seq");
    assert_eq!(notes.entries().len(), 0);
}

#[test]
fn expr_parser_keeps_the_text_of_a_string() {
    let mut notes = Annotations::new();
    let parser: ExprParser<u8> = ExprParser::new();
    match parser.parse_node(&text("${{ matrix.os }}", 0), &mut notes) {
        PossumNodeKind::Expr(s) => assert_eq!(s, "${{ matrix.os }}"),
        other => panic!("{:?}", other),
    }
    let kind = parser.parse_node(&YamlNode::new(Yaml::Null, 0), &mut notes);
    assert_eq!(message(&kind), "expected Str but found Null");
}

#[test]
fn transform_changes_a_value_and_nothing_else() {
    let mut notes = Annotations::new();
    let parser = StringParser.to(|s: String| s.len());
    assert!(matches!(parser.parse_node(&text("four", 0), &mut notes), PossumNodeKind::Value(4)));
    let kind = parser.parse_node(&map(vec![], 0), &mut notes);
    assert_eq!(message(&kind), "expected Str but found Map");
    let same = TransformParser::new(StringParser, |s: String| s.len());
    assert!(matches!(same.parse_node(&text("xy", 0), &mut notes), PossumNodeKind::Value(2)));
}

#[test]
fn flat_map_lets_a_value_fail() {
    let mut notes = Annotations::new();
    let check = |s: String| {
        if s == "yes" {
            PossumNodeKind::Value(true)
        } else {
            PossumNodeKind::Invalid(format!("{} is not yes", s))
        }
    };
    let parser = StringParser.flatten(check);
    assert!(matches!(parser.parse_node(&text("yes", 0), &mut notes), PossumNodeKind::Value(true)));
    assert_eq!(message(&parser.parse_node(&text("no", 0), &mut notes)), "no is not yes");
    assert_eq!(
        message(&parser.parse_node(&integer("1", 0), &mut notes)),
        "expected Str but found Number"
    );
    let same = FlatMapParser::new(StringParser, check);
    assert!(matches!(same.parse_node(&text("yes", 0), &mut notes), PossumNodeKind::Value(true)));
}

#[test]
fn map_parser_keeps_every_pair_in_source_order() {
    let mut notes = Annotations::new();
    let root = map(
        vec![
            (text("zeta", 0), text("1", 6)),
            (text("alpha", 8), text("2", 15)),
            (text("zeta", 17), text("3", 23)),
        ],
        0,
    );
    let parsed = match MapParser::new(StringParser, StringParser).parse_node(&root, &mut notes) {
        PossumNodeKind::Value(m) => m,
        other => panic!("{:?}", other),
    };
    assert_eq!(parsed.len(), 3);
    let seen: Vec<(String, usize, String, usize)> = parsed
        .iter()
        .iter()
        .map(|(k, v)| {
            (k.value().unwrap().clone(), k.loc().0, v.value().unwrap().clone(), v.loc().0)
        })
        .collect();
    assert_eq!(
        seen,
        vec![
            ("zeta".to_string(), 0, "1".to_string(), 6),
            ("alpha".to_string(), 8, "2".to_string(), 15),
            ("zeta".to_string(), 17, "3".to_string(), 23),
        ]
    );
    assert_eq!(notes.entries().len(), 0);
}

#[test]
fn map_parser_marks_a_bad_pair_and_goes_on() {
    let mut notes = Annotations::new();
    let root = map(vec![(integer("1", 2), text("a", 5)), (text("k", 8), seq(vec![], 11))], 0);
    let parsed = match StringMapParser::new().parse_node(&root, &mut notes) {
        PossumNodeKind::Value(m) => m,
        other => panic!("{:?}", other),
    };
    assert_eq!(parsed.len(), 2);
    let pairs = parsed.iter();
    assert_eq!(message(pairs[0].0.kind()), "expected Str but found Number");
    assert_eq!(pairs[0].1.value().unwrap(), "a");
    assert_eq!(pairs[1].0.value().unwrap(), "k");
    assert_eq!(message(pairs[1].1.kind()), "expected Str but found Seq");
}

#[test]
fn seq_parser_keeps_every_item_in_source_order() {
    let mut notes = Annotations::new();
    let root = seq(vec![text("b", 2), integer("7", 6), text("a", 10)], 0);
    let parsed = match SeqParser::new(StringParser).parse_node(&root, &mut notes) {
        PossumNodeKind::Value(s) => s,
        other => panic!("{:?}", other),
    };
    assert_eq!(parsed.len(), 3);
    let items = parsed.iter();
    assert_eq!(items[0].value().unwrap(), "b");
    assert_eq!(items[0].loc(), DocumentPointer(2));
    assert_eq!(message(items[1].kind()), "expected Str but found Number");
    assert_eq!(items[1].loc(), DocumentPointer(6));
    assert_eq!(items[2].value().unwrap(), "a");
    assert_eq!(items[2].loc(), DocumentPointer(10));
}

#[test]
fn containers_refuse_every_other_shape_with_one_invalid() {
    for node in every_shape() {
        let mut notes = Annotations::new();
        let as_map = MapParser::new(StringParser, StringParser).parse_node(&node, &mut notes);
        let as_seq = SeqParser::new(StringParser).parse_node(&node, &mut notes);
        let as_object = ObjectParser::new(NameOnly::default).parse_node(&node, &mut notes);
        let is_map = matches!(node.yaml(), Yaml::Mapping(_));
        let is_seq = matches!(node.yaml(), Yaml::Sequence(_));
        assert_eq!(as_map.invalid(), !is_map);
        assert_eq!(as_seq.invalid(), !is_seq);
        assert_eq!(as_object.invalid(), !is_map);
        if !is_map {
            assert!(message(&as_map).starts_with("expected Map but found "));
            assert!(message(&as_object).starts_with("expected Map but found "));
        }
        if !is_seq {
            assert!(message(&as_seq).starts_with("expected Seq but found "));
        }
        if !is_map {
            assert_eq!(notes.entries().len(), 0);
        }
    }
}

#[test]
fn pluralize_makes_one_entry_of_a_scalar() {
    let mut notes = Annotations::new();
    let parsed = match StringParser.pluralize().parse_node(&text("foo", 4), &mut notes) {
        PossumNodeKind::Value(s) => s,
        other => panic!("{:?}", other),
    };
    assert_eq!(parsed.len(), 1);
    assert_eq!(parsed.iter()[0].value().unwrap(), "foo");
    assert_eq!(parsed.iter()[0].loc(), DocumentPointer(4));
}

#[test]
fn pluralize_fails_where_its_parser_fails() {
    let mut notes = Annotations::new();
    let root = seq(vec![text("foo", 2), text("bar", 8)], 0);
    let kind = Pluralize::new(StringParser).parse_node(&root, &mut notes);
    assert_eq!(message(&kind), "expected Str but found Seq");
    assert_eq!(notes.entries().len(), 0);
}

#[test]
fn pluralize_keeps_what_is_empty_or_an_expression() {
    let mut notes = Annotations::new();
    let nothing = |_: String| -> PossumNodeKind<String> { PossumNodeKind::Empty };
    let absent = FlatMapParser::new(StringParser, nothing);
    let parsed = match Pluralize::new(absent).parse_node(&text("foo", 6), &mut notes) {
        PossumNodeKind::Value(s) => s,
        other => panic!("{:?}", other),
    };
    assert_eq!(parsed.len(), 1);
    assert!(matches!(parsed.iter()[0].kind(), PossumNodeKind::Empty));
    assert_eq!(parsed.iter()[0].loc(), DocumentPointer(6));
}

#[test]
fn one_or_many_strings_are_a_sequence_either_way() {
    let fallback = |_: &YamlNode| -> PossumNodeKind<PossumSeq<String>> {
        PossumNodeKind::Invalid("neither".to_string())
    };
    let parser = StringParser.pluralize().or(SeqParser::new(StringParser), fallback);
    let mut notes = Annotations::new();
    let root = seq(vec![text("foo", 2), text("bar", 8)], 0);
    let many = match parser.parse_node(&root, &mut notes) {
        PossumNodeKind::Value(s) => s,
        other => panic!("{:?}", other),
    };
    assert_eq!(many.len(), 2);
    assert_eq!(many.iter()[0].value().unwrap(), "foo");
    assert_eq!(many.iter()[1].value().unwrap(), "bar");
    assert_eq!(many.iter()[1].loc(), DocumentPointer(8));
    let one = match parser.parse_node(&text("foo", 4), &mut notes) {
        PossumNodeKind::Value(s) => s,
        other => panic!("{:?}", other),
    };
    assert_eq!(one.len(), 1);
    let kind = parser.parse_node(&integer("3", 0), &mut notes);
    assert_eq!(message(&kind), "neither");
    assert_eq!(notes.entries().len(), 0);
}

struct Counting<'a> {
    calls: &'a std::cell::Cell<u32>,
    fails: bool,
}

impl<'a> Parser<u32> for Counting<'a> {
    fn ready(&self) -> bool {
        true
    }

    fn parses(
        &self,
        _: &YamlNode,
        _: PossumNodeKind<u32>,
        _: vstd::seq::Seq<possum::document::AnnotationView>,
    ) -> bool {
        true
    }

    fn parse_node(&self, root: &YamlNode, annotations: &mut Annotations) -> PossumNodeKind<u32> {
        self.calls.set(self.calls.get() + 1);
        if self.fails {
            PossumNodeKind::Invalid("no".to_string())
        } else {
            annotations.add(UnexpectedKey::from("seen").at(root));
            PossumNodeKind::Value(self.calls.get())
        }
    }
}

#[test]
fn or_stops_at_the_first_parser_that_does_not_fail() {
    let first = std::cell::Cell::new(0);
    let second = std::cell::Cell::new(0);
    let last = std::cell::Cell::new(0);
    let parser = OrParser::new(
        Counting { calls: &first, fails: false },
        Counting { calls: &second, fails: false },
        |_: &YamlNode| {
            last.set(last.get() + 1);
            PossumNodeKind::Empty
        },
    );
    let mut notes = Annotations::new();
    let kind = parser.parse_node(&text("x", 3), &mut notes);
    assert!(matches!(kind, PossumNodeKind::Value(1)));
    assert_eq!((first.get(), second.get(), last.get()), (1, 0, 0));
    assert_eq!(notes.entries().len(), 1);
}

#[test]
fn or_tries_the_second_parser_when_the_first_fails() {
    let first = std::cell::Cell::new(0);
    let second = std::cell::Cell::new(0);
    let last = std::cell::Cell::new(0);
    let parser = Counting { calls: &first, fails: true }.or(
        Counting { calls: &second, fails: false },
        |_: &YamlNode| {
            last.set(last.get() + 1);
            PossumNodeKind::Empty
        },
    );
    let mut notes = Annotations::new();
    let kind = parser.parse_node(&text("x", 3), &mut notes);
    assert!(matches!(kind, PossumNodeKind::Value(1)));
    assert_eq!((first.get(), second.get(), last.get()), (1, 1, 0));
}

#[test]
fn or_falls_back_on_the_default_when_both_fail() {
    let first = std::cell::Cell::new(0);
    let second = std::cell::Cell::new(0);
    let last = std::cell::Cell::new(0);
    let parser = OrParser::new(
        Counting { calls: &first, fails: true },
        Counting { calls: &second, fails: true },
        |_: &YamlNode| {
            last.set(last.get() + 1);
            PossumNodeKind::Invalid("neither".to_string())
        },
    );
    let mut notes = Annotations::new();
    let kind = parser.parse_node(&text("x", 3), &mut notes);
    assert_eq!(message(&kind), "neither");
    assert_eq!((first.get(), second.get(), last.get()), (1, 1, 1));
    assert_eq!(notes.entries().len(), 0);
}

#[test]
fn or_keeps_expr_and_empty_of_the_first_parser() {
    let mut notes = Annotations::new();
    let parser = ExprParser::<String>::new().or(StringParser, |_: &YamlNode| PossumNodeKind::Empty);
    assert!(matches!(parser.parse_node(&text("e", 0), &mut notes), PossumNodeKind::Expr(_)));
    assert!(matches!(parser.parse_node(&integer("1", 0), &mut notes), PossumNodeKind::Empty));
}

#[test]
fn maybe_expr_takes_a_string_as_an_expression() {
    let mut notes = Annotations::new();
    let parser = MaybeExprParser::new(BoolParser, |_: &YamlNode| {
        PossumNodeKind::Invalid("neither".to_string())
    });
    match parser.parse_node(&text("${{ inputs.flag }}", 0), &mut notes) {
        PossumNodeKind::Expr(s) => assert_eq!(s, "${{ inputs.flag }}"),
        other => panic!("{:?}", other),
    }
    assert!(matches!(
        parser.parse_node(&YamlNode::new(Yaml::Bool(true), 0), &mut notes),
        PossumNodeKind::Value(true)
    ));
    assert_eq!(message(&parser.parse_node(&integer("1", 0), &mut notes)), "neither");
}

#[derive(Default, Debug)]
struct Named {
    name: Option<String>,
    fields_seen: u32,
}

#[derive(Default)]
struct NameOnly {
    named: Named,
}

impl Builder<Named> for NameOnly {
    fn builds(
        self,
        _: vstd::seq::Seq<char>,
        _: &YamlNode,
        _: DocumentPointer,
        _: Self,
        _: vstd::seq::Seq<possum::document::AnnotationView>,
    ) -> bool {
        true
    }

    fn built(self) -> Named {
        self.named
    }

    fn build<P: AsDocumentPointer>(
        &mut self,
        key: &str,
        value: &YamlNode,
        _pointer: &P,
        annotations: &mut Annotations,
    ) {
        self.named.fields_seen += 1;
        match key {
            "name" => {
                if let PossumNodeKind::Value(name) = StringParser.parse_node(value, annotations) {
                    self.named.name = Some(name);
                }
            }
            other => annotations.add(UnexpectedKey::from(other).at(value)),
        }
    }

    fn finish(self) -> Named {
        self.named
    }
}

#[test]
fn an_unknown_key_is_reported_and_the_known_one_is_kept() {
    let mut notes = Annotations::new();
    let root = map(vec![(text("name", 1), text("x", 7)), (text("bogus", 12), integer("1", 19))], 0);
    let named = match ObjectParser::new(NameOnly::default).parse_node(&root, &mut notes) {
        PossumNodeKind::Value(named) => named,
        other => panic!("{:?}", other),
    };
    assert_eq!(named.name.as_deref(), Some("x"));
    assert_eq!(named.fields_seen, 2);
    let entries = notes.entries();
    assert_eq!(entries.len(), 1);
    assert_eq!(entries[0].level(), AnnotationLevel::Error);
    assert_eq!(entries[0].message(), "Unexpected key: bogus");
    assert_eq!(entries[0].as_document_pointer(), DocumentPointer(19));
}

#[test]
fn a_key_that_is_no_string_is_reported_and_skipped() {
    let mut notes = Annotations::new();
    let root = map(vec![(integer("7", 1), text("x", 4)), (text("name", 6), text("y", 12))], 0);
    let named = match ObjectParser::new(NameOnly::default).parse_node(&root, &mut notes) {
        PossumNodeKind::Value(named) => named,
        other => panic!("{:?}", other),
    };
    assert_eq!(named.name.as_deref(), Some("y"));
    assert_eq!(named.fields_seen, 1);
    let entries = notes.entries();
    assert_eq!(entries.len(), 1);
    assert_eq!(entries[0].level(), AnnotationLevel::Fatal);
    assert_eq!(entries[0].message(), "expected Str but found Number");
    assert_eq!(entries[0].as_document_pointer(), DocumentPointer(1));
}

#[test]
fn an_unexpected_key_is_an_error_where_it_is_reported() {
    let note = UnexpectedKey::from("bogus").at(&DocumentPointer(12));
    assert_eq!(note.level(), AnnotationLevel::Error);
    assert_eq!(note.to_string(), "Error: Unexpected key: bogus");
    assert_eq!(UnexpectedKey("k").to_string(), "Unexpected key: k");
}

#[test]
fn one_document_is_parsed_at_its_own_position() {
    let mut notes = Annotations::new();
    let documents = vec![text("root", 4)];
    let root = parse_single_document(&documents, &StringParser, &mut notes).unwrap();
    assert_eq!(root.loc(), DocumentPointer(4));
    assert_eq!(root.value().unwrap(), "root");
}

#[test]
fn one_document_that_cannot_be_understood_is_still_a_tree() {
    let mut notes = Annotations::new();
    let documents = vec![integer("1", 9)];
    let root = parse_single_document(&documents, &StringParser, &mut notes).unwrap();
    assert_eq!(root.loc(), DocumentPointer(9));
    assert!(root.kind().invalid());
}

#[test]
fn no_document_is_a_failure() {
    let mut notes = Annotations::new();
    let documents: Vec<YamlNode> = vec![];
    let failure = parse_single_document(&documents, &StringParser, &mut notes).unwrap_err();
    assert!(matches!(failure, ParseFailure::Empty));
    assert_eq!(notes.entries().len(), 0);
}

#[test]
fn more_documents_than_one_are_a_failure_with_a_pointer_for_each_extra_one() {
    let mut notes = Annotations::new();
    let documents = vec![text("a", 0), text("b", 6), text("c", 12)];
    match parse_single_document(&documents, &StringParser, &mut notes).unwrap_err() {
        ParseFailure::TooManyDocuments(extra) => {
            assert_eq!(extra, vec![DocumentPointer(6), DocumentPointer(12)])
        }
        other => panic!("{:?}", other),
    }
    assert_eq!(notes.entries().len(), 0);
}

#[test]
fn bytes_that_the_tokenizer_rejected_are_a_failure_with_its_complaint() {
    let mut notes = Annotations::new();
    let loaded: Result<&[YamlNode], String> = Err("invalid mapping at 3:1".to_string());
    match parse_loaded(loaded, &StringParser, &mut notes) {
        Err(ParseFailure::InvalidDocument(complaint)) => {
            assert_eq!(complaint, "invalid mapping at 3:1")
        }
        other => panic!("{:?}", other.map(|_| ())),
    }
    assert_eq!(notes.entries().len(), 0);
}

#[test]
fn documents_that_the_tokenizer_gave_are_parsed_as_one_file() {
    let mut notes = Annotations::new();
    let documents = vec![text("root", 4)];
    let root = parse_loaded(Ok(documents.as_slice()), &StringParser, &mut notes).unwrap();
    assert_eq!(root.loc(), DocumentPointer(4));
    assert_eq!(root.value().unwrap(), "root");
    let none: Vec<YamlNode> = vec![];
    let failure = parse_loaded(Ok(none.as_slice()), &StringParser, &mut notes).unwrap_err();
    assert!(matches!(failure, ParseFailure::Empty));
    let many = vec![text("a", 0), text("b", 6)];
    match parse_loaded(Ok(many.as_slice()), &StringParser, &mut notes).unwrap_err() {
        ParseFailure::TooManyDocuments(extra) => assert_eq!(extra, vec![DocumentPointer(6)]),
        other => panic!("{:?}", other),
    }
    assert_eq!(notes.entries().len(), 0);
}

#[test]
fn string_map_parser_is_a_map_parser_of_strings() {
    let mut notes = Annotations::new();
    let root = map(vec![(text("CI", 0), text("true", 4))], 0);
    let parsed: PossumMap<String, String> =
        match StringMapParser::new().parse_node(&root, &mut notes) {
            PossumNodeKind::Value(m) => m,
            other => panic!("{:?}", other),
        };
    assert_eq!(parsed.len(), 1);
    assert_eq!(parsed.iter()[0].0.value().unwrap(), "CI");
    assert_eq!(parsed.iter()[0].1.value().unwrap(), "true");
    let none: PossumNodeKind<PossumSeq<String>> =
        SeqParser::new(StringParser).parse_node(&seq(vec![], 0), &mut notes);
    assert!(matches!(none, PossumNodeKind::Value(s) if s.is_empty()));
}
