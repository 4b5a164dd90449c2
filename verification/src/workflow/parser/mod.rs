//! The schema parsers. Each entity of a workflow is one small parser built
//! from the parsers of the framework.
mod concurrency;
mod event;
mod input;
mod job;
mod on;
mod permissions;
mod step;
mod strategy;

use crate::document::annotation::{added_since, joined, lemma_grown};
use crate::document::{AnnotationView, Annotations, AsDocumentPointer, DocumentPointer};
use crate::scavenge::ast::{PossumMap, PossumNode, PossumNodeKind, PossumSeq};
use crate::scavenge::extraction::{mismatch_text, ExpectedView, ExpectedYaml, Number};
use crate::scavenge::parser::{unexpected_key_note, Parser, UnexpectedKey};
use crate::scavenge::parsers::{
    bool_kind, number_kind, object_parsed, pair_notes, sequence_kind, string_kind,
    string_map_kind, BoolParser, Builder, MapParser, NumberParser, ObjectParser, SeqParser,
    StringMapParser, StringParser,
};
use crate::scavenge::yaml::{YamlKind, YamlNode};
use crate::text::same_text;
use crate::workflow::Workflow;
use std::marker::PhantomData;
use vstd::prelude::*;

pub use concurrency::{
    concurrency_parsed, group_field_lowered, group_field_set, group_fields_set, group_named,
    group_parsed, set_group_field, ConcurrencyMapParser, ConcurrencyParser,
    ConcurrencyStringParser, GroupFields,
};
pub use event::{
    event_parsed, glob_kind, globs_field, globs_kind, output_parsed, parse_globs,
    secret_parsed, EventBuilder, EventParser, InheritedSecretBuilder, InheritedSecretParser,
    WorkflowOutputBuilder, WorkflowOutputParser,
};
pub use input::{
    input_default_kind, input_parsed, input_type_kind, InputBuilder, InputDefaultParser,
    InputParser, InputTypeParser,
};
pub use job::{
    env_field_lowered, env_field_set, env_fields_set, environment_described, environment_named,
    environment_parsed, job_parsed, names_field, names_kind, one_string, parse_environment,
    parse_names, set_env_field, steps_parser, EnvFields, EnvMapParser, EnvStringParser,
    JobBuilder, JobParser,
};
pub use on::{
    bare_event, described_events, event_for, event_kind_kind, events_parser,
    lemma_trigger_in_any_shape_is_a_value, listed_events, named_event, one_event,
    trigger_parsed, EventKindParser, OnArrayParser, OnMapParser, OnParser, OnStringParser,
};
pub use permissions::{
    global_grant, global_grant_named, grant_added, grant_named, grants_added, individual_grant,
    parse_individual_grant, permission_parsed, scope_grant, PermissionParser,
};
pub use step::{
    step_field_lowered, step_field_set, step_fields_set, step_parsed, StepBuilder, StepParser,
};
pub use strategy::{
    axis_kind, matrix_input_kind, matrix_parsed, matrix_row_kind, parse_axis, parse_rows,
    rows_kind, strategy_parsed, MatrixBuilder, MatrixInputParser, MatrixParser, MatrixRows,
    StrategyBuilder, StrategyParser,
};

verus! {

/// `field` holds what `parser` may make of `value`, at the place of `value`.
pub open spec fn field_parsed<T, P: Parser<T>>(
    parser: P,
    value: &YamlNode,
    field: Option<PossumNode<T>>,
    notes: Seq<AnnotationView>,
) -> bool {
    field matches Some(node) && node.location == value.pointer() && parser.parses(
        value,
        node.kind,
        notes,
    )
}

/// Parses `value` with `parser` into a field of a record.
pub fn parse_field<T, P: Parser<T>>(parser: &P, value: &YamlNode, annotations: &mut Annotations) -> (field:
    Option<PossumNode<T>>)
    requires
        parser.ready(),
    ensures
        old(annotations)@.is_prefix_of(final(annotations)@),
        field_parsed(*parser, value, field, added_since(old(annotations)@, final(annotations)@)),
{
    Some(parser.parse_node(value, annotations).at(value))
}

/// `field` holds `value` read as a string, at the place of `value`.
pub open spec fn string_field(value: &YamlNode, field: Option<PossumNode<String>>) -> bool {
    field matches Some(node) && node.location == value.pointer() && string_kind(
        value.yaml,
        node.kind,
    )
}

/// `field` holds `value` read as a boolean, at the place of `value`.
pub open spec fn bool_field(value: &YamlNode, field: Option<PossumNode<bool>>) -> bool {
    field matches Some(node) && node.location == value.pointer() && bool_kind(
        value.yaml,
        node.kind,
    )
}

/// `field` holds `value` read as a number, at the place of `value`.
pub open spec fn number_field(value: &YamlNode, field: Option<PossumNode<Number>>) -> bool {
    field matches Some(node) && node.location == value.pointer() && number_kind(
        value.yaml,
        node.kind,
    )
}

/// `field` holds `value` read as a mapping from strings to strings, at the
/// place of `value`.
pub open spec fn string_map_field(
    value: &YamlNode,
    field: Option<PossumNode<PossumMap<String, String>>>,
) -> bool {
    field matches Some(node) && node.location == value.pointer() && string_map_kind(
        value,
        node.kind,
    )
}

/// Reads `value` as a string into a field of a record.
pub fn parse_string(value: &YamlNode, annotations: &mut Annotations) -> (field: Option<
    PossumNode<String>,
>)
    ensures
        final(annotations)@ == old(annotations)@,
        string_field(value, field),
{
    let kind = StringParser.parse_node(value, annotations);
    assert(annotations@ =~= old(annotations)@);
    Some(kind.at(value))
}

/// Reads `value` as a boolean into a field of a record.
pub fn parse_bool(value: &YamlNode, annotations: &mut Annotations) -> (field: Option<
    PossumNode<bool>,
>)
    ensures
        final(annotations)@ == old(annotations)@,
        bool_field(value, field),
{
    let kind = BoolParser.parse_node(value, annotations);
    assert(annotations@ =~= old(annotations)@);
    Some(kind.at(value))
}

/// Reads `value` as a number into a field of a record.
pub fn parse_number(value: &YamlNode, annotations: &mut Annotations) -> (field: Option<
    PossumNode<Number>,
>)
    ensures
        final(annotations)@ == old(annotations)@,
        number_field(value, field),
{
    let kind = NumberParser.parse_node(value, annotations);
    assert(annotations@ =~= old(annotations)@);
    Some(kind.at(value))
}

/// Reads `value` as a mapping from strings to strings into a field of a
/// record.
pub fn parse_string_map(value: &YamlNode, annotations: &mut Annotations) -> (field: Option<
    PossumNode<PossumMap<String, String>>,
>)
    ensures
        final(annotations)@ == old(annotations)@,
        string_map_field(value, field),
{
    let kind = StringMapParser::new().parse_node(value, annotations);
    assert(annotations@ =~= old(annotations)@);
    Some(kind.at(value))
}

/// The parser of a mapping from strings to what `values` parses.
pub open spec fn record_map_parser<V, VP: Parser<V>>(values: VP) -> MapParser<
    String,
    V,
    StringParser,
    VP,
> {
    MapParser { keys: StringParser, values, _k: PhantomData, _v: PhantomData }
}

/// Reads `value` as a mapping from strings to what `values` parses, into a
/// field of a record.
pub fn parse_record_map<V, VP: Parser<V>>(
    values: VP,
    value: &YamlNode,
    annotations: &mut Annotations,
) -> (field: Option<PossumNode<PossumMap<String, V>>>)
    requires
        values.ready(),
    ensures
        old(annotations)@.is_prefix_of(final(annotations)@),
        field_parsed(
            record_map_parser(values),
            value,
            field,
            added_since(old(annotations)@, final(annotations)@),
        ),
{
    let parser = MapParser::new(StringParser, values);
    let field = parse_field(&parser, value, annotations);
    proof {
        let notes = annotations@.skip(old(annotations)@.len() as int);
        let kind = field->Some_0.kind;
        let named = record_map_parser(values);
        if value.yaml is Mapping {
            let pairs = value.yaml->Mapping_0@;
            let (key_notes, value_notes) = choose|
                key_notes: Seq<Seq<AnnotationView>>,
                value_notes: Seq<Seq<AnnotationView>>,
            | #[trigger]
                parser.pairs_parsed(pairs, kind->Value_0@, key_notes, value_notes) && notes
                    == joined(pair_notes(key_notes, value_notes));
            assert(named.pairs_parsed(pairs, kind->Value_0@, key_notes, value_notes));
        }
        assert(named.parses(value, kind, notes));
    }
    field
}

/// `kind` is a sequence of strings read from `root`.
pub open spec fn strings_kind(root: &YamlNode, kind: PossumNodeKind<PossumSeq<String>>) -> bool {
    sequence_kind(
        root,
        kind,
        |node: YamlNode, made: PossumNodeKind<String>| string_kind(node.yaml, made),
    )
}

/// Reads `value` as a sequence of strings.
pub fn parse_strings(value: &YamlNode, annotations: &mut Annotations) -> (kind: PossumNodeKind<
    PossumSeq<String>,
>)
    ensures
        final(annotations)@ == old(annotations)@,
        strings_kind(value, kind),
{
    let parser = SeqParser::new(StringParser);
    let kind = parser.parse_node(value, annotations);
    proof {
        let notes = annotations@.skip(old(annotations)@.len() as int);
        parser.lemma_seq_quiet(
            value,
            kind,
            notes,
            |node: YamlNode, made: PossumNodeKind<String>| string_kind(node.yaml, made),
        );
        lemma_grown(old(annotations)@, annotations@);
        assert(annotations@ =~= old(annotations)@);
    }
    kind
}

/// `kind` is `Invalid` and its message is `message`.
pub open spec fn invalid_with<T>(kind: PossumNodeKind<T>, message: Seq<char>) -> bool {
    kind matches PossumNodeKind::Invalid(text) && text@ == message
}

/// `kind` is `Invalid` and says that `found` is none of `kinds`.
pub open spec fn none_of<T>(kind: PossumNodeKind<T>, kinds: Seq<YamlKind>, found: &YamlNode) -> bool {
    invalid_with(kind, mismatch_text(ExpectedView::AnyOf(kinds), found.yaml.kind()))
}

/// The `Invalid` for a node that has none of the shapes `kinds`.
pub fn unexpected<T>(kinds: Vec<YamlKind>, found: &YamlNode) -> (kind: PossumNodeKind<T>)
    ensures
        none_of(kind, kinds@, found),
{
    PossumNodeKind::Invalid(ExpectedYaml::AnyOf(kinds).but_found(found).to_string())
}

/// Parses the root of a workflow document.
pub struct WorkflowParser;

impl WorkflowParser {
    pub fn new() -> (parser: WorkflowParser)
        ensures
            parser == WorkflowParser,
    {
        WorkflowParser
    }
}

/// Collects the fields of a workflow.
pub struct WorkflowBuilder {
    pub workflow: Workflow,
}

impl WorkflowBuilder {
    pub fn new() -> (builder: WorkflowBuilder)
        ensures
            builder.workflow == Workflow::blank(),
    {
        WorkflowBuilder { workflow: Workflow::default() }
    }
}

impl Builder<Workflow> for WorkflowBuilder {
    /// The key is compared as written. Each known key sets its field, a later
    /// pair overriding an earlier one; an unknown key is reported at
    /// `pointer`, where the key stands.
    open spec fn builds(
        self,
        key: Seq<char>,
        value: &YamlNode,
        pointer: DocumentPointer,
        after: Self,
        notes: Seq<AnnotationView>,
    ) -> bool {
        let workflow = after.workflow;
        if key == "name"@ {
            &&& workflow == (Workflow { name: workflow.name, ..self.workflow })
            &&& string_field(value, workflow.name)
            &&& notes.len() == 0
        } else if key == "run_name"@ {
            &&& workflow == (Workflow { run_name: workflow.run_name, ..self.workflow })
            &&& string_field(value, workflow.run_name)
            &&& notes.len() == 0
        } else if key == "on"@ {
            &&& workflow == (Workflow { on: workflow.on, ..self.workflow })
            &&& field_parsed(OnParser, value, workflow.on, notes)
        } else if key == "jobs"@ {
            &&& workflow == (Workflow { jobs: workflow.jobs, ..self.workflow })
            &&& field_parsed(record_map_parser(JobParser), value, workflow.jobs, notes)
        } else if key == "permissions"@ {
            &&& workflow == (Workflow { permissions: workflow.permissions, ..self.workflow })
            &&& field_parsed(PermissionParser, value, workflow.permissions, notes)
        } else if key == "concurrency"@ {
            &&& workflow == (Workflow { concurrency: workflow.concurrency, ..self.workflow })
            &&& field_parsed(ConcurrencyParser, value, workflow.concurrency, notes)
        } else if key == "env"@ {
            &&& workflow == (Workflow { env: workflow.env, ..self.workflow })
            &&& string_map_field(value, workflow.env)
            &&& notes.len() == 0
        } else {
            after == self && notes == seq![unexpected_key_note(key, pointer)]
        }
    }

    fn build<P: AsDocumentPointer>(
        &mut self,
        key: &str,
        value: &YamlNode,
        pointer: &P,
        annotations: &mut Annotations,
    ) {
        let ghost before = annotations@;
        if same_text(key, "name") {
            self.workflow.name = parse_string(value, annotations);
        } else if same_text(key, "run_name") {
            self.workflow.run_name = parse_string(value, annotations);
        } else if same_text(key, "on") {
            self.workflow.on = parse_field(&OnParser::new(), value, annotations);
        } else if same_text(key, "jobs") {
            self.workflow.jobs = parse_record_map(JobParser::new(), value, annotations);
        } else if same_text(key, "permissions") {
            self.workflow.permissions = parse_field(&PermissionParser::new(), value, annotations);
        } else if same_text(key, "concurrency") {
            self.workflow.concurrency = parse_field(&ConcurrencyParser::new(), value, annotations);
        } else if same_text(key, "env") {
            self.workflow.env = parse_string_map(value, annotations);
        } else {
            annotations.add(UnexpectedKey::from(key).at(pointer));
            assert(annotations@.skip(before.len() as int) =~= seq![
                unexpected_key_note(key@, pointer.pointer()),
            ]);
        }
    }

    open spec fn built(self) -> Workflow {
        self.workflow
    }

    fn finish(self) -> (built: Workflow) {
        self.workflow
    }
}

/// Whether `kind` with `notes` is what a workflow may be read as from
/// `root`: a mapping becomes the workflow of its pairs, taken in source
/// order into a workflow that starts blank; any other node becomes one
/// `Invalid`.
pub open spec fn workflow_parsed(
    root: &YamlNode,
    kind: PossumNodeKind<Workflow>,
    notes: Seq<AnnotationView>,
) -> bool {
    object_parsed(WorkflowBuilder { workflow: Workflow::blank() }, root, kind, notes)
}

impl Parser<Workflow> for WorkflowParser {
    open spec fn ready(&self) -> bool {
        true
    }

    open spec fn parses(
        &self,
        root: &YamlNode,
        kind: PossumNodeKind<Workflow>,
        notes: Seq<AnnotationView>,
    ) -> bool {
        workflow_parsed(root, kind, notes)
    }

    fn parse_node(&self, root: &YamlNode, annotations: &mut Annotations) -> (kind: PossumNodeKind<
        Workflow,
    >) {
        let parser = ObjectParser::new(WorkflowBuilder::new);
        proof {
            parser.lemma_object(root, PossumNodeKind::Empty, Seq::empty());
        }
        let kind = parser.parse_node(root, annotations);
        proof {
            let notes = annotations@.skip(old(annotations)@.len() as int);
            parser.lemma_object(root, kind, notes);
        }
        kind
    }
}

} // verus!
