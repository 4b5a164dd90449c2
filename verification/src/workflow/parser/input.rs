//! Inputs: what a workflow takes when it is called or dispatched.
use super::{
    bool_field, field_parsed, invalid_with, none_of, parse_bool, parse_field, parse_string,
    parse_strings, string_field, strings_kind, unexpected,
};
use crate::document::annotation::added_since;
use crate::document::{AnnotationView, Annotations, AsDocumentPointer, DocumentPointer};
use crate::scavenge::ast::PossumNodeKind;
use crate::scavenge::extraction::{node_integer_of, Number};
use crate::scavenge::parser::{unexpected_key_note, Parser, UnexpectedKey};
use crate::scavenge::parsers::{
    invalid_for, object_parsed, BoolParser, Builder, FlatMappableParser, NumberParser,
    ObjectParser, OrableParser, StringParser, TransformableParser,
};
use crate::scavenge::yaml::{Yaml, YamlKind, YamlNode};
use crate::text::{lowercase, lowercased, same_text};
use crate::workflow::on::{
    input_type_named, unknown_input_type_text, WorkflowInput, WorkflowInputDefault,
    WorkflowInputType,
};
use vstd::prelude::*;

verus! {

/// Reads one input of a workflow.
pub struct InputParser;

/// Reads the default of an input: a string, a boolean or a number.
pub struct InputDefaultParser;

/// Reads the type of an input by its name.
pub struct InputTypeParser;

impl InputParser {
    pub fn new() -> (parser: InputParser)
        ensures
            parser == InputParser,
    {
        InputParser
    }
}

/// `kind` is the type of input that the text `name` names, or an `Invalid`
/// that quotes it.
pub open spec fn input_type_for(name: Seq<char>, kind: PossumNodeKind<WorkflowInputType>) -> bool {
    match input_type_named(name) {
        Some(input_type) => kind == PossumNodeKind::Value(input_type),
        None => invalid_with(kind, unknown_input_type_text(name)),
    }
}

/// `kind` is what the type of an input is read as from `yaml`.
pub open spec fn input_type_kind(yaml: Yaml, kind: PossumNodeKind<WorkflowInputType>) -> bool {
    match yaml {
        Yaml::Str(text) => input_type_for(text@, kind),
        _ => invalid_for(kind, YamlKind::Str, yaml.kind()),
    }
}

/// Looks the type of an input up by its name.
fn input_type_of(s: String) -> (kind: PossumNodeKind<WorkflowInputType>)
    ensures
        input_type_for(s@, kind),
{
    match WorkflowInputType::fromstr(s.as_str()) {
        Ok(input_type) => PossumNodeKind::Value(input_type),
        Err(bad) => PossumNodeKind::Invalid(bad.to_string()),
    }
}

impl Parser<WorkflowInputType> for InputTypeParser {
    open spec fn ready(&self) -> bool {
        true
    }

    open spec fn parses(
        &self,
        root: &YamlNode,
        kind: PossumNodeKind<WorkflowInputType>,
        notes: Seq<AnnotationView>,
    ) -> bool {
        input_type_kind(root.yaml, kind) && notes.len() == 0
    }

    fn parse_node(&self, root: &YamlNode, annotations: &mut Annotations) -> (kind: PossumNodeKind<
        WorkflowInputType,
    >) {
        let parser = StringParser.flatten(input_type_of);
        proof {
            parser.lemma_flat_map(root, PossumNodeKind::Empty, Seq::empty());
        }
        let kind = parser.parse_node(root, annotations);
        proof {
            let notes = annotations@.skip(old(annotations)@.len() as int);
            parser.lemma_flat_map(root, kind, notes);
        }
        kind
    }
}

/// `kind` is what the default of an input is read as from `root`: a string,
/// a boolean or a number as it stands, and `Invalid` for anything else.
pub open spec fn input_default_kind(
    root: &YamlNode,
    kind: PossumNodeKind<WorkflowInputDefault>,
) -> bool {
    match root.yaml {
        Yaml::Str(text) => kind matches PossumNodeKind::Value(WorkflowInputDefault::Str(parsed))
            && parsed@ == text@,
        Yaml::Bool(value) => kind == PossumNodeKind::Value(WorkflowInputDefault::Bool(value)),
        Yaml::Int(raw) => match node_integer_of(raw@) {
            Some(value) => kind == PossumNodeKind::Value(
                WorkflowInputDefault::Number(Number::Integer(value)),
            ),
            None => none_of(kind, seq![YamlKind::Number, YamlKind::Str, YamlKind::Bool], root),
        },
        Yaml::Float(raw) => kind == PossumNodeKind::Value(
            WorkflowInputDefault::Number(Number::Real(raw)),
        ),
        _ => none_of(kind, seq![YamlKind::Number, YamlKind::Str, YamlKind::Bool], root),
    }
}

impl Parser<WorkflowInputDefault> for InputDefaultParser {
    open spec fn ready(&self) -> bool {
        true
    }

    open spec fn parses(
        &self,
        root: &YamlNode,
        kind: PossumNodeKind<WorkflowInputDefault>,
        notes: Seq<AnnotationView>,
    ) -> bool {
        input_default_kind(root, kind) && notes.len() == 0
    }

    fn parse_node(&self, root: &YamlNode, annotations: &mut Annotations) -> (kind: PossumNodeKind<
        WorkflowInputDefault,
    >) {
        let as_str = |s: String| -> (d: WorkflowInputDefault)
            ensures
                d == WorkflowInputDefault::Str(s),
            { WorkflowInputDefault::Str(s) };
        let as_bool = |b: bool| -> (d: WorkflowInputDefault)
            ensures
                d == WorkflowInputDefault::Bool(b),
            { WorkflowInputDefault::Bool(b) };
        let as_number = |n: Number| -> (d: WorkflowInputDefault)
            ensures
                d == WorkflowInputDefault::Number(n),
            { WorkflowInputDefault::Number(n) };
        let no_flag = |r: &YamlNode| -> (k: PossumNodeKind<WorkflowInputDefault>)
            ensures
                none_of(k, seq![YamlKind::Number, YamlKind::Str, YamlKind::Bool], r),
            { unexpected(vec![YamlKind::Number, YamlKind::Str, YamlKind::Bool], r) };
        let no_number = |r: &YamlNode| -> (k: PossumNodeKind<WorkflowInputDefault>)
            ensures
                none_of(k, seq![YamlKind::Number, YamlKind::Str, YamlKind::Bool], r),
            { unexpected(vec![YamlKind::Number, YamlKind::Str, YamlKind::Bool], r) };
        let strings = StringParser.to(as_str);
        let bools = BoolParser.to(as_bool);
        let numbers = NumberParser.to(as_number);
        proof {
            strings.lemma_transform(root, PossumNodeKind::Empty, Seq::empty());
            bools.lemma_transform(root, PossumNodeKind::Empty, Seq::empty());
            numbers.lemma_transform(root, PossumNodeKind::Empty, Seq::empty());
        }
        let flags = strings.or(bools, no_flag);
        proof {
            flags.lemma_or(root, PossumNodeKind::Empty, Seq::empty());
        }
        let parser = flags.or(numbers, no_number);
        proof {
            parser.lemma_or(root, PossumNodeKind::Empty, Seq::empty());
        }
        let kind = parser.parse_node(root, annotations);
        proof {
            let notes = annotations@.skip(old(annotations)@.len() as int);
            parser.lemma_or(root, kind, notes);
            let (flag, flag_notes, number, number_notes) = choose|
                flag: PossumNodeKind<WorkflowInputDefault>,
                flag_notes: Seq<AnnotationView>,
                number: PossumNodeKind<WorkflowInputDefault>,
                number_notes: Seq<AnnotationView>,
            | #[trigger] parser.attempts(root, flag, flag_notes, number, number_notes, kind, notes);
            parser.lhs.lemma_or(root, flag, flag_notes);
            let (string, string_notes, boolean, boolean_notes) = choose|
                string: PossumNodeKind<WorkflowInputDefault>,
                string_notes: Seq<AnnotationView>,
                boolean: PossumNodeKind<WorkflowInputDefault>,
                boolean_notes: Seq<AnnotationView>,
            | #[trigger]
                parser.lhs.attempts(
                    root,
                    string,
                    string_notes,
                    boolean,
                    boolean_notes,
                    flag,
                    flag_notes,
                );
            parser.lhs.lhs.lemma_transform(root, string, string_notes);
            if string is Invalid {
                parser.lhs.rhs.lemma_transform(root, boolean, boolean_notes);
                assert(flag_notes =~= boolean_notes);
            }
            if flag is Invalid {
                parser.rhs.lemma_transform(root, number, number_notes);
                assert(notes =~= number_notes);
            }
        }
        kind
    }
}

/// Collects the fields of one input.
pub struct InputBuilder {
    pub input: WorkflowInput,
}

impl Default for InputBuilder {
    fn default() -> (builder: InputBuilder)
        ensures
            builder.input == WorkflowInput::blank(),
    {
        InputBuilder { input: WorkflowInput::default() }
    }
}

impl InputBuilder {
    /// Whether taking in a field whose key, in lower case, is `lower` and
    /// stands at `pointer` may leave the builder as `after` while reporting
    /// `notes`. An unknown key is reported in lower case at `pointer`.
    pub open spec fn builds_lowered(
        self,
        lower: Seq<char>,
        value: &YamlNode,
        pointer: DocumentPointer,
        after: Self,
        notes: Seq<AnnotationView>,
    ) -> bool {
        let input = after.input;
        if lower == "description"@ {
            &&& input == (WorkflowInput { description: input.description, ..self.input })
            &&& string_field(value, input.description)
            &&& notes.len() == 0
        } else if lower == "default"@ {
            &&& input == (WorkflowInput { default: input.default, ..self.input })
            &&& field_parsed(InputDefaultParser, value, input.default, notes)
        } else if lower == "required"@ {
            &&& input == (WorkflowInput { required: input.required, ..self.input })
            &&& bool_field(value, input.required)
            &&& notes.len() == 0
        } else if lower == "type"@ {
            &&& input == (WorkflowInput { input_type: input.input_type, ..self.input })
            &&& field_parsed(InputTypeParser, value, input.input_type, notes)
        } else if lower == "choices"@ {
            &&& input == (WorkflowInput { choices: input.choices, ..self.input })
            &&& input.choices matches Some(node)
            &&& node.location == value.pointer()
            &&& strings_kind(value, node.kind)
            &&& notes.len() == 0
        } else {
            after == self && notes == seq![unexpected_key_note(lower, pointer)]
        }
    }

    /// Takes in one field of an input whose key, in lower case, is `lower`
    /// and stands at `pointer`.
    pub fn build_lowered<P: AsDocumentPointer>(
        &mut self,
        lower: &str,
        value: &YamlNode,
        pointer: &P,
        annotations: &mut Annotations,
    )
        ensures
            old(annotations)@.is_prefix_of(final(annotations)@),
            old(self).builds_lowered(
                lower@,
                value,
                pointer.pointer(),
                *final(self),
                added_since(old(annotations)@, final(annotations)@),
            ),
    {
        let ghost before = annotations@;
        if same_text(lower, "description") {
            self.input.description = parse_string(value, annotations);
        } else if same_text(lower, "default") {
            self.input.default = parse_field(&InputDefaultParser, value, annotations);
        } else if same_text(lower, "required") {
            self.input.required = parse_bool(value, annotations);
        } else if same_text(lower, "type") {
            self.input.input_type = parse_field(&InputTypeParser, value, annotations);
        } else if same_text(lower, "choices") {
            self.input.choices = Some(parse_strings(value, annotations).at(value));
        } else {
            annotations.add(UnexpectedKey::from(lower).at(pointer));
            assert(annotations@.skip(before.len() as int) =~= seq![
                unexpected_key_note(lower@, pointer.pointer()),
            ]);
        }
    }
}

impl Builder<WorkflowInput> for InputBuilder {
    /// The key is compared in lower case.
    open spec fn builds(
        self,
        key: Seq<char>,
        value: &YamlNode,
        pointer: DocumentPointer,
        after: Self,
        notes: Seq<AnnotationView>,
    ) -> bool {
        self.builds_lowered(lowercased(key), value, pointer, after, notes)
    }

    fn build<P: AsDocumentPointer>(
        &mut self,
        key: &str,
        value: &YamlNode,
        pointer: &P,
        annotations: &mut Annotations,
    ) {
        let lower = lowercase(key);
        self.build_lowered(lower.as_str(), value, pointer, annotations);
    }

    open spec fn built(self) -> WorkflowInput {
        self.input
    }

    fn finish(self) -> (built: WorkflowInput) {
        self.input
    }
}

/// Whether `kind` with `notes` is what an input may be read as from `root`.
pub open spec fn input_parsed(
    root: &YamlNode,
    kind: PossumNodeKind<WorkflowInput>,
    notes: Seq<AnnotationView>,
) -> bool {
    object_parsed(InputBuilder { input: WorkflowInput::blank() }, root, kind, notes)
}

impl Parser<WorkflowInput> for InputParser {
    open spec fn ready(&self) -> bool {
        true
    }

    open spec fn parses(
        &self,
        root: &YamlNode,
        kind: PossumNodeKind<WorkflowInput>,
        notes: Seq<AnnotationView>,
    ) -> bool {
        input_parsed(root, kind, notes)
    }

    fn parse_node(&self, root: &YamlNode, annotations: &mut Annotations) -> (kind: PossumNodeKind<
        WorkflowInput,
    >) {
        let fresh = || -> (builder: InputBuilder)
            ensures
                builder.input == WorkflowInput::blank(),
            { InputBuilder::default() };
        let parser = ObjectParser::new(fresh);
        proof {
            parser.lemma_object(root, PossumNodeKind::Empty, Seq::empty());
        }
        let kind = parser.parse_node(root, annotations);
        proof {
            let notes = annotations@.skip(old(annotations)@.len() as int);
            parser.lemma_object(root, kind, notes);
        }
        kind
    }
}

} // verus!
