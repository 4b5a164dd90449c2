//! Events: what narrows one event of a trigger.
use super::{
    bool_field, field_parsed, parse_bool, parse_record_map, parse_string, record_map_parser,
    string_field, InputParser,
};
use crate::document::annotation::lemma_grown;
use crate::document::{AnnotationView, Annotations, AsDocumentPointer, DocumentPointer};
use crate::scavenge::ast::{PossumNode, PossumNodeKind, PossumSeq};
use crate::scavenge::parser::{unexpected_key_note, Parser, UnexpectedKey};
use crate::scavenge::parsers::{
    invalid_for, object_parsed, sequence_kind, Builder, ObjectParser, SeqParser, StringParser,
    TransformableParser,
};
use crate::scavenge::yaml::{Yaml, YamlKind, YamlNode};
use crate::text::same_text;
use crate::workflow::on::{Event, Globbed, InheritedSecret, WorkflowOutput};
use vstd::prelude::*;

verus! {

/// Reads what narrows one event.
pub struct EventParser;

/// Reads a secret that a called workflow takes from its caller.
pub struct InheritedSecretParser;

/// Reads an output that a called workflow hands back.
pub struct WorkflowOutputParser;

impl EventParser {
    pub fn new() -> (parser: EventParser)
        ensures
            parser == EventParser,
    {
        EventParser
    }
}

/// `kind` is what a pattern is read as from `yaml`: a string as it stands.
pub open spec fn glob_kind(yaml: Yaml, kind: PossumNodeKind<Globbed>) -> bool {
    match yaml {
        Yaml::Str(text) => kind matches PossumNodeKind::Value(globbed) && globbed.0@ == text@,
        _ => invalid_for(kind, YamlKind::Str, yaml.kind()),
    }
}

/// `kind` is a sequence of patterns read from `root`.
pub open spec fn globs_kind(root: &YamlNode, kind: PossumNodeKind<PossumSeq<Globbed>>) -> bool {
    sequence_kind(root, kind, |node: YamlNode, made: PossumNodeKind<Globbed>| glob_kind(node.yaml, made))
}

/// `field` holds a sequence of patterns read from `value`, at the place of
/// `value`.
pub open spec fn globs_field(value: &YamlNode, field: Option<PossumNode<PossumSeq<Globbed>>>) -> bool {
    field matches Some(node) && node.location == value.pointer() && globs_kind(value, node.kind)
}

/// Reads `value` as a sequence of patterns into a field of a record.
pub fn parse_globs(value: &YamlNode, annotations: &mut Annotations) -> (field: Option<
    PossumNode<PossumSeq<Globbed>>,
>)
    ensures
        final(annotations)@ == old(annotations)@,
        globs_field(value, field),
{
    let globs = StringParser.to(Globbed::new);
    proof {
        globs.lemma_transform(value, PossumNodeKind::Empty, Seq::empty());
    }
    let parser = SeqParser::new(globs);
    proof {
        parser.lemma_seq(value, PossumNodeKind::Empty, Seq::empty());
    }
    let kind = parser.parse_node(value, annotations);
    proof {
        let notes = annotations@.skip(old(annotations)@.len() as int);
        let glob = |node: YamlNode, made: PossumNodeKind<Globbed>| glob_kind(node.yaml, made);
        assert forall|node: &YamlNode, made: PossumNodeKind<Globbed>, said: Seq<AnnotationView>|
            #[trigger] parser.inner.parses(node, made, said) implies glob(*node, made)
            && said.len() == 0 by {
            parser.inner.lemma_transform(node, made, said);
        }
        parser.lemma_seq_quiet(value, kind, notes, glob);
        lemma_grown(old(annotations)@, annotations@);
        assert(annotations@ =~= old(annotations)@);
    }
    Some(kind.at(value))
}

/// Collects what narrows one event.
pub struct EventBuilder {
    pub event: Event,
}

impl Default for EventBuilder {
    fn default() -> (builder: EventBuilder)
        ensures
            builder.event == Event::blank(),
    {
        EventBuilder { event: Event::default() }
    }
}

impl Builder<Event> for EventBuilder {
    /// The key is compared as written. An unknown key is reported at
    /// `pointer`, where the key stands.
    open spec fn builds(
        self,
        key: Seq<char>,
        value: &YamlNode,
        pointer: DocumentPointer,
        after: Self,
        notes: Seq<AnnotationView>,
    ) -> bool {
        let event = after.event;
        if key == "branches"@ {
            &&& event == (Event { branches: event.branches, ..self.event })
            &&& globs_field(value, event.branches)
            &&& notes.len() == 0
        } else if key == "branches-ignore"@ {
            &&& event == (Event { branches_ignore: event.branches_ignore, ..self.event })
            &&& globs_field(value, event.branches_ignore)
            &&& notes.len() == 0
        } else if key == "paths"@ {
            &&& event == (Event { paths: event.paths, ..self.event })
            &&& globs_field(value, event.paths)
            &&& notes.len() == 0
        } else if key == "paths-ignore"@ {
            &&& event == (Event { paths_ignore: event.paths_ignore, ..self.event })
            &&& globs_field(value, event.paths_ignore)
            &&& notes.len() == 0
        } else if key == "tags"@ {
            &&& event == (Event { tags: event.tags, ..self.event })
            &&& globs_field(value, event.tags)
            &&& notes.len() == 0
        } else if key == "tags-ignore"@ {
            &&& event == (Event { tags_ignore: event.tags_ignore, ..self.event })
            &&& globs_field(value, event.tags_ignore)
            &&& notes.len() == 0
        } else if key == "inputs"@ {
            &&& event == (Event { inputs: event.inputs, ..self.event })
            &&& field_parsed(record_map_parser(InputParser), value, event.inputs, notes)
        } else if key == "outputs"@ {
            &&& event == (Event { outputs: event.outputs, ..self.event })
            &&& field_parsed(record_map_parser(WorkflowOutputParser), value, event.outputs, notes)
        } else if key == "secrets"@ {
            &&& event == (Event { secrets: event.secrets, ..self.event })
            &&& field_parsed(record_map_parser(InheritedSecretParser), value, event.secrets, notes)
        } else {
            after == self && notes == seq![unexpected_key_note(key, pointer)]
        }
    }

    fn build<P: AsDocumentPointer>(
        &mut self,
        key: &str,
        value: &YamlNode,
        pointer: &P,
        annotations: &mut Annotations,
    ) {
        let ghost before = annotations@;
        if same_text(key, "branches") {
            self.event.branches = parse_globs(value, annotations);
        } else if same_text(key, "branches-ignore") {
            self.event.branches_ignore = parse_globs(value, annotations);
        } else if same_text(key, "paths") {
            self.event.paths = parse_globs(value, annotations);
        } else if same_text(key, "paths-ignore") {
            self.event.paths_ignore = parse_globs(value, annotations);
        } else if same_text(key, "tags") {
            self.event.tags = parse_globs(value, annotations);
        } else if same_text(key, "tags-ignore") {
            self.event.tags_ignore = parse_globs(value, annotations);
        } else if same_text(key, "inputs") {
            self.event.inputs = parse_record_map(InputParser::new(), value, annotations);
        } else if same_text(key, "outputs") {
            self.event.outputs = parse_record_map(WorkflowOutputParser, value, annotations);
        } else if same_text(key, "secrets") {
            self.event.secrets = parse_record_map(InheritedSecretParser, value, annotations);
        } else {
            annotations.add(UnexpectedKey::from(key).at(pointer));
            assert(annotations@.skip(before.len() as int) =~= seq![
                unexpected_key_note(key@, pointer.pointer()),
            ]);
        }
    }

    open spec fn built(self) -> Event {
        self.event
    }

    fn finish(self) -> (built: Event) {
        self.event
    }
}

/// Whether `kind` with `notes` is what the body of an event may be read as
/// from `root`.
pub open spec fn event_parsed(
    root: &YamlNode,
    kind: PossumNodeKind<Event>,
    notes: Seq<AnnotationView>,
) -> bool {
    object_parsed(EventBuilder { event: Event::blank() }, root, kind, notes)
}

impl Parser<Event> for EventParser {
    open spec fn ready(&self) -> bool {
        true
    }

    open spec fn parses(
        &self,
        root: &YamlNode,
        kind: PossumNodeKind<Event>,
        notes: Seq<AnnotationView>,
    ) -> bool {
        event_parsed(root, kind, notes)
    }

    fn parse_node(&self, root: &YamlNode, annotations: &mut Annotations) -> (kind: PossumNodeKind<
        Event,
    >) {
        let fresh = || -> (builder: EventBuilder)
            ensures
                builder.event == Event::blank(),
            { EventBuilder::default() };
        let parser = ObjectParser::new(fresh);
        proof {
            parser.lemma_object(root, PossumNodeKind::Empty, Seq::empty());
        }
        let kind = parser.parse_node(root, annotations);
        proof {
            let notes = annotations@.skip(old(annotations)@.len() as int);
            parser.lemma_object(root, kind, notes);
        }
        kind
    }
}

/// Collects the fields of one inherited secret.
pub struct InheritedSecretBuilder {
    pub secret: InheritedSecret,
}

impl Default for InheritedSecretBuilder {
    fn default() -> (builder: InheritedSecretBuilder)
        ensures
            builder.secret == InheritedSecret::blank(),
    {
        InheritedSecretBuilder { secret: InheritedSecret::default() }
    }
}

impl Builder<InheritedSecret> for InheritedSecretBuilder {
    /// The key is compared as written. An unknown key is reported at
    /// `pointer`.
    open spec fn builds(
        self,
        key: Seq<char>,
        value: &YamlNode,
        pointer: DocumentPointer,
        after: Self,
        notes: Seq<AnnotationView>,
    ) -> bool {
        let secret = after.secret;
        if key == "description"@ {
            &&& secret == (InheritedSecret { description: secret.description, ..self.secret })
            &&& string_field(value, secret.description)
            &&& notes.len() == 0
        } else if key == "required"@ {
            &&& secret == (InheritedSecret { required: secret.required, ..self.secret })
            &&& bool_field(value, secret.required)
            &&& notes.len() == 0
        } else {
            after == self && notes == seq![unexpected_key_note(key, pointer)]
        }
    }

    fn build<P: AsDocumentPointer>(
        &mut self,
        key: &str,
        value: &YamlNode,
        pointer: &P,
        annotations: &mut Annotations,
    ) {
        let ghost before = annotations@;
        if same_text(key, "description") {
            self.secret.description = parse_string(value, annotations);
        } else if same_text(key, "required") {
            self.secret.required = parse_bool(value, annotations);
        } else {
            annotations.add(UnexpectedKey::from(key).at(pointer));
            assert(annotations@.skip(before.len() as int) =~= seq![
                unexpected_key_note(key@, pointer.pointer()),
            ]);
        }
    }

    open spec fn built(self) -> InheritedSecret {
        self.secret
    }

    fn finish(self) -> (built: InheritedSecret) {
        self.secret
    }
}

/// Whether `kind` with `notes` is what an inherited secret may be read as
/// from `root`.
pub open spec fn secret_parsed(
    root: &YamlNode,
    kind: PossumNodeKind<InheritedSecret>,
    notes: Seq<AnnotationView>,
) -> bool {
    object_parsed(
        InheritedSecretBuilder { secret: InheritedSecret::blank() },
        root,
        kind,
        notes,
    )
}

impl Parser<InheritedSecret> for InheritedSecretParser {
    open spec fn ready(&self) -> bool {
        true
    }

    open spec fn parses(
        &self,
        root: &YamlNode,
        kind: PossumNodeKind<InheritedSecret>,
        notes: Seq<AnnotationView>,
    ) -> bool {
        secret_parsed(root, kind, notes)
    }

    fn parse_node(&self, root: &YamlNode, annotations: &mut Annotations) -> (kind: PossumNodeKind<
        InheritedSecret,
    >) {
        let fresh = || -> (builder: InheritedSecretBuilder)
            ensures
                builder.secret == InheritedSecret::blank(),
            { InheritedSecretBuilder::default() };
        let parser = ObjectParser::new(fresh);
        proof {
            parser.lemma_object(root, PossumNodeKind::Empty, Seq::empty());
        }
        let kind = parser.parse_node(root, annotations);
        proof {
            let notes = annotations@.skip(old(annotations)@.len() as int);
            parser.lemma_object(root, kind, notes);
        }
        kind
    }
}

/// Collects the fields of one output of a workflow.
pub struct WorkflowOutputBuilder {
    pub output: WorkflowOutput,
}

impl Default for WorkflowOutputBuilder {
    fn default() -> (builder: WorkflowOutputBuilder)
        ensures
            builder.output == WorkflowOutput::blank(),
    {
        WorkflowOutputBuilder { output: WorkflowOutput::default() }
    }
}

impl Builder<WorkflowOutput> for WorkflowOutputBuilder {
    /// The key is compared as written. An unknown key is reported at
    /// `pointer`.
    open spec fn builds(
        self,
        key: Seq<char>,
        value: &YamlNode,
        pointer: DocumentPointer,
        after: Self,
        notes: Seq<AnnotationView>,
    ) -> bool {
        let output = after.output;
        if key == "description"@ {
            &&& output == (WorkflowOutput { description: output.description, ..self.output })
            &&& string_field(value, output.description)
            &&& notes.len() == 0
        } else if key == "value"@ {
            &&& output == (WorkflowOutput { value: output.value, ..self.output })
            &&& string_field(value, output.value)
            &&& notes.len() == 0
        } else {
            after == self && notes == seq![unexpected_key_note(key, pointer)]
        }
    }

    fn build<P: AsDocumentPointer>(
        &mut self,
        key: &str,
        value: &YamlNode,
        pointer: &P,
        annotations: &mut Annotations,
    ) {
        let ghost before = annotations@;
        if same_text(key, "description") {
            self.output.description = parse_string(value, annotations);
        } else if same_text(key, "value") {
            self.output.value = parse_string(value, annotations);
        } else {
            annotations.add(UnexpectedKey::from(key).at(pointer));
            assert(annotations@.skip(before.len() as int) =~= seq![
                unexpected_key_note(key@, pointer.pointer()),
            ]);
        }
    }

    open spec fn built(self) -> WorkflowOutput {
        self.output
    }

    fn finish(self) -> (built: WorkflowOutput) {
        self.output
    }
}

/// Whether `kind` with `notes` is what an output of a workflow may be read
/// as from `root`.
pub open spec fn output_parsed(
    root: &YamlNode,
    kind: PossumNodeKind<WorkflowOutput>,
    notes: Seq<AnnotationView>,
) -> bool {
    object_parsed(WorkflowOutputBuilder { output: WorkflowOutput::blank() }, root, kind, notes)
}

impl Parser<WorkflowOutput> for WorkflowOutputParser {
    open spec fn ready(&self) -> bool {
        true
    }

    open spec fn parses(
        &self,
        root: &YamlNode,
        kind: PossumNodeKind<WorkflowOutput>,
        notes: Seq<AnnotationView>,
    ) -> bool {
        output_parsed(root, kind, notes)
    }

    fn parse_node(&self, root: &YamlNode, annotations: &mut Annotations) -> (kind: PossumNodeKind<
        WorkflowOutput,
    >) {
        let fresh = || -> (builder: WorkflowOutputBuilder)
            ensures
                builder.output == WorkflowOutput::blank(),
            { WorkflowOutputBuilder::default() };
        let parser = ObjectParser::new(fresh);
        proof {
            parser.lemma_object(root, PossumNodeKind::Empty, Seq::empty());
        }
        let kind = parser.parse_node(root, annotations);
        proof {
            let notes = annotations@.skip(old(annotations)@.len() as int);
            parser.lemma_object(root, kind, notes);
        }
        kind
    }
}

} // verus!
