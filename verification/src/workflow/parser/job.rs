//! Jobs: the fields of one job of a workflow.
use super::{
    bool_field, field_parsed, none_of, number_field, parse_bool, parse_field, parse_number,
    parse_string, parse_string_map, string_field, string_map_field, strings_kind, unexpected,
    ConcurrencyParser, PermissionParser, StepParser, StrategyParser,
};
use crate::document::annotation::{
    added_since, joined, lemma_added_since, lemma_grown, lemma_joined_push,
};
use crate::document::{AnnotationView, Annotations, AsDocumentPointer, DocumentPointer};
use crate::scavenge::ast::{PossumNode, PossumNodeKind, PossumSeq};
use crate::scavenge::extraction::{mismatch_note, ExpectedView, Extract};
use crate::scavenge::parser::{unexpected_key_note, Parser, UnexpectedKey};
use crate::scavenge::parsers::{
    invalid_for, object_parsed, promoted, string_kind, Builder, ObjectParser, OrableParser,
    PluralizableParser, SeqParser, StringParser, TransformableParser,
};
use crate::scavenge::yaml::{Yaml, YamlKind, YamlNode};
use crate::text::{lowercase, lowercased, same_text};
use crate::workflow::job::{Environment, Job, Step};
use std::marker::PhantomData;
use vstd::prelude::*;

verus! {

/// Reads one job.
pub struct JobParser;

impl JobParser {
    pub fn new() -> (parser: JobParser)
        ensures
            parser == JobParser,
    {
        JobParser
    }
}

/// Reads a string as the bare name of an environment.
pub struct EnvStringParser;

/// `kind` is what a string is read as: the environment of that name.
pub open spec fn environment_named(root: &YamlNode, kind: PossumNodeKind<Environment>) -> bool {
    match root.yaml {
        Yaml::Str(text) => kind matches PossumNodeKind::Value(Environment::Bare(name)) && name@
            == text@,
        _ => invalid_for(kind, YamlKind::Str, root.yaml.kind()),
    }
}

impl Parser<Environment> for EnvStringParser {
    open spec fn ready(&self) -> bool {
        true
    }

    open spec fn parses(
        &self,
        root: &YamlNode,
        kind: PossumNodeKind<Environment>,
        notes: Seq<AnnotationView>,
    ) -> bool {
        environment_named(root, kind) && notes.len() == 0
    }

    fn parse_node(&self, root: &YamlNode, annotations: &mut Annotations) -> (kind: PossumNodeKind<
        Environment,
    >) {
        let bare = |s: String| -> (e: Environment)
            ensures
                e == Environment::Bare(s),
            { Environment::Bare(s) };
        let parser = StringParser.to(bare);
        proof {
            parser.lemma_transform(root, PossumNodeKind::Empty, Seq::empty());
        }
        let kind = parser.parse_node(root, annotations);
        proof {
            parser.lemma_transform(root, kind, annotations@.skip(old(annotations)@.len() as int));
        }
        kind
    }
}

/// Reads a mapping as an environment with its name and URL.
pub struct EnvMapParser;

impl EnvMapParser {
    pub fn new() -> (parser: EnvMapParser)
        ensures
            parser == EnvMapParser,
    {
        EnvMapParser
    }
}

/// The two settings of an environment, each absent until its key is met.
pub type EnvFields = (Option<PossumNode<String>>, Option<PossumNode<String>>);

/// Whether taking in a setting may turn the settings `before` into `after`
/// while reporting `notes`, where the key of the setting is `key` as it is
/// written, `lower` in lower case, and stands at `pointer`. `name` and `url`
/// each take the value read as a string, put at the value's place; any other
/// key is reported as it is written, where it stands.
pub open spec fn env_field_lowered(
    lower: Seq<char>,
    key: Seq<char>,
    pointer: DocumentPointer,
    value: &YamlNode,
    before: EnvFields,
    after: EnvFields,
    notes: Seq<AnnotationView>,
) -> bool {
    if lower == "name"@ {
        notes.len() == 0 && after.1 == before.1 && string_field(value, after.0)
    } else if lower == "url"@ {
        notes.len() == 0 && after.0 == before.0 && string_field(value, after.1)
    } else {
        after == before && notes == seq![unexpected_key_note(key, pointer)]
    }
}

/// Whether taking in `pair` may turn the settings `before` into `after` while
/// reporting `notes`. The key is compared in lower case. A key that is no
/// string is reported where it stands, and the pair is skipped.
pub open spec fn env_field_set(
    pair: (YamlNode, YamlNode),
    before: EnvFields,
    after: EnvFields,
    notes: Seq<AnnotationView>,
) -> bool {
    match pair.0.yaml {
        Yaml::Str(key) => env_field_lowered(
            lowercased(key@),
            key@,
            pair.0.pointer(),
            &pair.1,
            before,
            after,
            notes,
        ),
        _ => after == before && notes == seq![
            mismatch_note(ExpectedView::Only(YamlKind::Str), pair.0.yaml.kind(), pair.0),
        ],
    }
}

/// Takes in one setting of an environment. `lower` is the key in lower
/// case, `key` the key as it is written, which stands at `pointer`.
pub fn set_env_field<P: AsDocumentPointer>(
    fields: EnvFields,
    lower: &str,
    key: &str,
    pointer: &P,
    value: &YamlNode,
    annotations: &mut Annotations,
) -> (after: EnvFields)
    ensures
        old(annotations)@.is_prefix_of(final(annotations)@),
        env_field_lowered(
            lower@,
            key@,
            pointer.pointer(),
            value,
            fields,
            after,
            added_since(old(annotations)@, final(annotations)@),
        ),
{
    if same_text(lower, "name") {
        (parse_string(value, annotations), fields.1)
    } else if same_text(lower, "url") {
        (fields.0, parse_string(value, annotations))
    } else {
        annotations.add(UnexpectedKey::from(key).at(pointer));
        assert(annotations@.skip(old(annotations)@.len() as int) =~= seq![
            unexpected_key_note(key@, pointer.pointer()),
        ]);
        fields
    }
}

/// Whether the settings may pass through `states` while `pairs` are taken in
/// one by one, reporting `parts[i]` on pair `i`.
pub open spec fn env_fields_set(
    pairs: Seq<(YamlNode, YamlNode)>,
    states: Seq<EnvFields>,
    parts: Seq<Seq<AnnotationView>>,
) -> bool {
    &&& states.len() == pairs.len() + 1
    &&& parts.len() == pairs.len()
    &&& forall|i: int|
        0 <= i < pairs.len() ==> env_field_set(
            pairs[i],
            #[trigger] states[i],
            states[i + 1],
            parts[i],
        )
}

/// Whether `kind` with `notes` is what a mapping may be read as: the
/// environment whose settings are those of its pairs.
pub open spec fn environment_described(
    root: &YamlNode,
    kind: PossumNodeKind<Environment>,
    notes: Seq<AnnotationView>,
) -> bool {
    match root.yaml {
        Yaml::Mapping(pairs) => {
            &&& kind matches PossumNodeKind::Value(Environment::Env { name, url })
            &&& exists|states: Seq<EnvFields>, parts: Seq<Seq<AnnotationView>>| #[trigger]
                env_fields_set(pairs@, states, parts) && states[0] == (
                    None::<PossumNode<String>>,
                    None::<PossumNode<String>>,
                ) && states.last() == (name, url) && notes == joined(parts)
        },
        _ => invalid_for(kind, YamlKind::Mapping, root.yaml.kind()) && notes.len() == 0,
    }
}

impl Parser<Environment> for EnvMapParser {
    open spec fn ready(&self) -> bool {
        true
    }

    open spec fn parses(
        &self,
        root: &YamlNode,
        kind: PossumNodeKind<Environment>,
        notes: Seq<AnnotationView>,
    ) -> bool {
        environment_described(root, kind, notes)
    }

    fn parse_node(&self, root: &YamlNode, annotations: &mut Annotations) -> (kind: PossumNodeKind<
        Environment,
    >) {
        match root.extract_map() {
            Err(u) => PossumNodeKind::Invalid(u.to_string()),
            Ok(m) => {
                let ghost before = annotations@;
                let mut fields: EnvFields = (None, None);
                let ghost mut states: Seq<EnvFields> = seq![fields];
                let ghost mut parts: Seq<Seq<AnnotationView>> = Seq::empty();
                let mut i: usize = 0;
                proof {
                    assert(annotations@ =~= before + joined(parts));
                }
                while i < m.len()
                    invariant
                        0 <= i <= m@.len(),
                        states.len() == i + 1,
                        parts.len() == i,
                        states[0] == (None::<PossumNode<String>>, None::<PossumNode<String>>),
                        states[i as int] == fields,
                        annotations@ == before + joined(parts),
                        forall|j: int|
                            0 <= j < i ==> env_field_set(
                                m@[j],
                                #[trigger] states[j],
                                states[j + 1],
                                parts[j],
                            ),
                    decreases m@.len() - i,
                {
                    let ghost earlier = annotations@;
                    let ghost held = fields;
                    let key = &m[i].0;
                    let value = &m[i].1;
                    match key.extract_str() {
                        Err(u) => {
                            annotations.add(u.at(key));
                            proof {
                                assert(annotations@.skip(earlier.len() as int) =~= seq![
                                    mismatch_note(
                                        ExpectedView::Only(YamlKind::Str),
                                        key.yaml.kind(),
                                        *key,
                                    ),
                                ]);
                            }
                        },
                        Ok(s) => {
                            let lower = lowercase(s);
                            fields = set_env_field(
                                fields,
                                lower.as_str(),
                                s,
                                key,
                                value,
                                annotations,
                            );
                        },
                    }
                    proof {
                        let part = annotations@.skip(earlier.len() as int);
                        lemma_grown(earlier, annotations@);
                        lemma_joined_push(parts, part);
                        assert(env_field_set(m@[i as int], held, fields, part));
                        states = states.push(fields);
                        parts = parts.push(part);
                        assert(annotations@ =~= before + joined(parts));
                    }
                    i += 1;
                }
                let kind = PossumNodeKind::Value(Environment::Env { name: fields.0, url: fields.1 });
                proof {
                    lemma_added_since(before, joined(parts));
                    assert(states.last() == fields);
                    assert(env_fields_set(m@, states, parts));
                    assert(environment_described(root, kind, joined(parts)));
                }
                kind
            },
        }
    }
}

/// Whether `kind` with `notes` is what an environment may be read as from
/// `root`: a string names one, a mapping describes one, and any other node
/// is `Invalid`.
pub open spec fn environment_parsed(
    root: &YamlNode,
    kind: PossumNodeKind<Environment>,
    notes: Seq<AnnotationView>,
) -> bool {
    match root.yaml {
        Yaml::Str(_) => environment_named(root, kind) && notes.len() == 0,
        Yaml::Mapping(_) => environment_described(root, kind, notes),
        _ => none_of(kind, seq![YamlKind::Str, YamlKind::Mapping], root) && notes.len() == 0,
    }
}

/// Reads an environment.
pub fn parse_environment(value: &YamlNode, annotations: &mut Annotations) -> (kind: PossumNodeKind<
    Environment,
>)
    ensures
        old(annotations)@.is_prefix_of(final(annotations)@),
        environment_parsed(value, kind, added_since(old(annotations)@, final(annotations)@)),
{
    let neither = |r: &YamlNode| -> (made: PossumNodeKind<Environment>)
        ensures
            none_of(made, seq![YamlKind::Str, YamlKind::Mapping], r),
        { unexpected(vec![YamlKind::Str, YamlKind::Mapping], r) };
    let parser = EnvStringParser.or(EnvMapParser::new(), neither);
    proof {
        parser.lemma_or(value, PossumNodeKind::Empty, Seq::empty());
    }
    let kind = parser.parse_node(value, annotations);
    proof {
        let notes = annotations@.skip(old(annotations)@.len() as int);
        parser.lemma_or(value, kind, notes);
        let (first, first_notes, second, second_notes) = choose|
            first: PossumNodeKind<Environment>,
            first_notes: Seq<AnnotationView>,
            second: PossumNodeKind<Environment>,
            second_notes: Seq<AnnotationView>,
        | #[trigger] parser.attempts(value, first, first_notes, second, second_notes, kind, notes);
        if first is Invalid {
            assert(notes =~= second_notes);
        }
    }
    kind
}

/// `kind` is the sequence that holds `value` alone, read as a string and put
/// where `value` stands.
pub open spec fn one_string(value: &YamlNode, kind: PossumNodeKind<PossumSeq<String>>) -> bool {
    &&& kind matches PossumNodeKind::Value(seq)
    &&& seq@.len() == 1
    &&& seq@[0].location == value.pointer()
    &&& string_kind(value.yaml, seq@[0].kind)
}

/// `kind` is what one name or a list of names is read as from `value`: a
/// string is the sequence of that one name, a sequence is read name by name,
/// and any other node is `Invalid`.
pub open spec fn names_kind(value: &YamlNode, kind: PossumNodeKind<PossumSeq<String>>) -> bool {
    match value.yaml {
        Yaml::Str(_) => one_string(value, kind),
        Yaml::Sequence(_) => strings_kind(value, kind),
        _ => none_of(kind, seq![YamlKind::Str, YamlKind::Sequence], value),
    }
}

/// Reads what may be one name or a list of names. Nothing is reported.
pub fn parse_names(value: &YamlNode, annotations: &mut Annotations) -> (kind: PossumNodeKind<
    PossumSeq<String>,
>)
    ensures
        final(annotations)@ == old(annotations)@,
        names_kind(value, kind),
{
    let neither = |r: &YamlNode| -> (made: PossumNodeKind<PossumSeq<String>>)
        ensures
            none_of(made, seq![YamlKind::Str, YamlKind::Sequence], r),
        { unexpected(vec![YamlKind::Str, YamlKind::Sequence], r) };
    let parser = StringParser.pluralize().or(SeqParser::new(StringParser), neither);
    proof {
        parser.lemma_or(value, PossumNodeKind::Empty, Seq::empty());
    }
    let kind = parser.parse_node(value, annotations);
    proof {
        let notes = annotations@.skip(old(annotations)@.len() as int);
        parser.lemma_or(value, kind, notes);
        let (first, first_notes, second, second_notes) = choose|
            first: PossumNodeKind<PossumSeq<String>>,
            first_notes: Seq<AnnotationView>,
            second: PossumNodeKind<PossumSeq<String>>,
            second_notes: Seq<AnnotationView>,
        | #[trigger] parser.attempts(value, first, first_notes, second, second_notes, kind, notes);
        let one = choose|one: PossumNodeKind<String>| #[trigger]
            parser.lhs.inner.parses(value, one, first_notes) && promoted(value, one, first);
        if first is Invalid {
            parser.rhs.lemma_seq_quiet(
                value,
                second,
                second_notes,
                |node: YamlNode, made: PossumNodeKind<String>| string_kind(node.yaml, made),
            );
            assert(notes =~= first_notes + second_notes);
        }
        assert(notes.len() == 0);
        lemma_grown(old(annotations)@, annotations@);
        assert(annotations@ =~= old(annotations)@);
    }
    kind
}

/// `field` holds one name or a list of names read from `value`, at the place
/// of `value`.
pub open spec fn names_field(value: &YamlNode, field: Option<PossumNode<PossumSeq<String>>>) -> bool {
    field matches Some(node) && node.location == value.pointer() && names_kind(value, node.kind)
}

/// The parser of the steps of a job.
pub open spec fn steps_parser() -> SeqParser<Step, StepParser> {
    SeqParser { inner: StepParser, _t: PhantomData }
}

/// Collects the fields of one job.
pub struct JobBuilder {
    pub job: Job,
}

impl Default for JobBuilder {
    fn default() -> (builder: JobBuilder)
        ensures
            builder.job == Job::blank(),
    {
        JobBuilder { job: Job::default() }
    }
}

impl Builder<Job> for JobBuilder {
    /// The key is compared as written. Each known key sets its field, a later
    /// pair overriding an earlier one; an unknown key is reported at
    /// `pointer`.
    open spec fn builds(
        self,
        key: Seq<char>,
        value: &YamlNode,
        pointer: DocumentPointer,
        after: Self,
        notes: Seq<AnnotationView>,
    ) -> bool {
        let job = after.job;
        if key == "permissions"@ {
            &&& job == (Job { permissions: job.permissions, ..self.job })
            &&& field_parsed(PermissionParser, value, job.permissions, notes)
        } else if key == "env"@ {
            &&& job == (Job { env: job.env, ..self.job })
            &&& string_map_field(value, job.env)
            &&& notes.len() == 0
        } else if key == "with"@ {
            &&& job == (Job { with: job.with, ..self.job })
            &&& string_map_field(value, job.with)
            &&& notes.len() == 0
        } else if key == "concurrency"@ {
            &&& job == (Job { concurrency: job.concurrency, ..self.job })
            &&& field_parsed(ConcurrencyParser, value, job.concurrency, notes)
        } else if key == "steps"@ {
            &&& job == (Job { steps: job.steps, ..self.job })
            &&& field_parsed(steps_parser(), value, job.steps, notes)
        } else if key == "environment"@ {
            &&& job == (Job { environment: job.environment, ..self.job })
            &&& job.environment matches Some(node)
            &&& node.location == value.pointer()
            &&& environment_parsed(value, node.kind, notes)
        } else if key == "name"@ {
            &&& job == (Job { name: job.name, ..self.job })
            &&& string_field(value, job.name)
            &&& notes.len() == 0
        } else if key == "needs"@ {
            &&& job == (Job { needs: job.needs, ..self.job })
            &&& names_field(value, job.needs)
            &&& notes.len() == 0
        } else if key == "if"@ {
            &&& job == (Job { cond: job.cond, ..self.job })
            &&& string_field(value, job.cond)
            &&& notes.len() == 0
        } else if key == "runs-on"@ {
            &&& job == (Job { runs_on: job.runs_on, ..self.job })
            &&& names_field(value, job.runs_on)
            &&& notes.len() == 0
        } else if key == "outputs"@ {
            &&& job == (Job { outputs: job.outputs, ..self.job })
            &&& string_map_field(value, job.outputs)
            &&& notes.len() == 0
        } else if key == "timeout-minutes"@ {
            &&& job == (Job { timeout_minutes: job.timeout_minutes, ..self.job })
            &&& number_field(value, job.timeout_minutes)
            &&& notes.len() == 0
        } else if key == "continue-on-error"@ {
            &&& job == (Job { continue_on_error: job.continue_on_error, ..self.job })
            &&& bool_field(value, job.continue_on_error)
            &&& notes.len() == 0
        } else if key == "uses"@ {
            &&& job == (Job { uses: job.uses, ..self.job })
            &&& string_field(value, job.uses)
            &&& notes.len() == 0
        } else if key == "strategy"@ {
            &&& job == (Job { strategy: job.strategy, ..self.job })
            &&& field_parsed(StrategyParser, value, job.strategy, notes)
        } else {
            after == self && notes == seq![unexpected_key_note(key, pointer)]
        }
    }

    fn build<P: AsDocumentPointer>(
        &mut self,
        key: &str,
        value: &YamlNode,
        p: &P,
        annotations: &mut Annotations,
    ) {
        let ghost before = annotations@;
        if same_text(key, "permissions") {
            self.job.permissions = parse_field(&PermissionParser::new(), value, annotations);
        } else if same_text(key, "env") {
            self.job.env = parse_string_map(value, annotations);
        } else if same_text(key, "with") {
            self.job.with = parse_string_map(value, annotations);
        } else if same_text(key, "concurrency") {
            self.job.concurrency = parse_field(&ConcurrencyParser::new(), value, annotations);
        } else if same_text(key, "steps") {
            let steps = SeqParser::new(StepParser::new());
            self.job.steps = parse_field(&steps, value, annotations);
            proof {
                let notes = annotations@.skip(before.len() as int);
                let kind = self.job.steps->Some_0.kind;
                steps.lemma_seq(value, kind, notes);
                steps_parser().lemma_seq(value, kind, notes);
                if value.yaml is Sequence {
                    let items = value.yaml->Sequence_0@;
                    let item_notes = choose|item_notes: Seq<Seq<AnnotationView>>| #[trigger]
                        steps.items_parsed(items, kind->Value_0@, item_notes) && notes == joined(
                            item_notes,
                        );
                    assert(steps_parser().items_parsed(items, kind->Value_0@, item_notes));
                }
            }
        } else if same_text(key, "environment") {
            self.job.environment = Some(parse_environment(value, annotations).at(value));
        } else if same_text(key, "name") {
            self.job.name = parse_string(value, annotations);
        } else if same_text(key, "needs") {
            self.job.needs = Some(parse_names(value, annotations).at(value));
        } else if same_text(key, "if") {
            self.job.cond = parse_string(value, annotations);
        } else if same_text(key, "runs-on") {
            self.job.runs_on = Some(parse_names(value, annotations).at(value));
        } else if same_text(key, "outputs") {
            self.job.outputs = parse_string_map(value, annotations);
        } else if same_text(key, "timeout-minutes") {
            self.job.timeout_minutes = parse_number(value, annotations);
        } else if same_text(key, "continue-on-error") {
            self.job.continue_on_error = parse_bool(value, annotations);
        } else if same_text(key, "uses") {
            self.job.uses = parse_string(value, annotations);
        } else if same_text(key, "strategy") {
            self.job.strategy = parse_field(&StrategyParser, value, annotations);
        } else {
            annotations.add(UnexpectedKey::from(key).at(p));
            assert(annotations@.skip(before.len() as int) =~= seq![
                unexpected_key_note(key@, p.pointer()),
            ]);
        }
    }

    open spec fn built(self) -> Job {
        self.job
    }

    fn finish(self) -> (built: Job) {
        self.job
    }
}

/// Whether `kind` with `notes` is what a job may be read as from `root`: a
/// mapping becomes the job of its pairs, taken in source order into a job
/// that starts blank; any other node becomes one `Invalid`.
pub open spec fn job_parsed(
    root: &YamlNode,
    kind: PossumNodeKind<Job>,
    notes: Seq<AnnotationView>,
) -> bool {
    object_parsed(JobBuilder { job: Job::blank() }, root, kind, notes)
}

impl Parser<Job> for JobParser {
    open spec fn ready(&self) -> bool {
        true
    }

    open spec fn parses(
        &self,
        root: &YamlNode,
        kind: PossumNodeKind<Job>,
        notes: Seq<AnnotationView>,
    ) -> bool {
        job_parsed(root, kind, notes)
    }

    fn parse_node(&self, root: &YamlNode, annotations: &mut Annotations) -> (kind: PossumNodeKind<
        Job,
    >) {
        let fresh = || -> (builder: JobBuilder)
            ensures
                builder.job == Job::blank(),
            { JobBuilder::default() };
        let parser = ObjectParser::new(fresh);
        proof {
            parser.lemma_object(root, PossumNodeKind::Empty, Seq::empty());
        }
        let kind = parser.parse_node(root, annotations);
        proof {
            parser.lemma_object(root, kind, annotations@.skip(old(annotations)@.len() as int));
        }
        kind
    }
}

} // verus!
