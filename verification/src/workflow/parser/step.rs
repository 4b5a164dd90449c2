//! Steps: the fields of one step of a job.
use super::{
    parse_string, parse_string_map, string_field, string_map_field,
};
use crate::document::annotation::{joined, lemma_added_since, lemma_joined_push};
use crate::document::{
    Annotation, AnnotationView, Annotations, AsDocumentPointer, DocumentPointer,
};
use crate::scavenge::ast::PossumNodeKind;
use crate::scavenge::extraction::{mismatch_note, ExpectedView, Extract};
use crate::scavenge::parser::{unexpected_key_note, Parser, UnexpectedKey};
use crate::scavenge::parsers::invalid_for;
use crate::scavenge::yaml::{Yaml, YamlKind, YamlNode};
use crate::scavenge::Fallible;
use crate::text::{lowercase, lowercased, same_text};
use crate::workflow::job::Step;
use vstd::prelude::*;

verus! {

/// Collects the fields of one step.
pub struct StepBuilder {
    pub step: Step,
}

/// Whether taking in a field may turn the step `before` into `after` with
/// `failure` to report, where the key of the field is `lower` in lower case
/// and stands at `pointer`. Each known key sets its field, a later pair
/// overriding an earlier one; an unknown key is reported in lower case where
/// the key stands.
pub open spec fn step_field_lowered(
    lower: Seq<char>,
    pointer: DocumentPointer,
    value: &YamlNode,
    before: Step,
    after: Step,
    failure: Option<AnnotationView>,
) -> bool {
    if lower == "id"@ {
        &&& failure is None
        &&& after == (Step { id: after.id, ..before })
        &&& string_field(value, after.id)
    } else if lower == "if"@ {
        &&& failure is None
        &&& after == (Step { cond: after.cond, ..before })
        &&& string_field(value, after.cond)
    } else if lower == "name"@ {
        &&& failure is None
        &&& after == (Step { name: after.name, ..before })
        &&& string_field(value, after.name)
    } else if lower == "uses"@ {
        &&& failure is None
        &&& after == (Step { uses: after.uses, ..before })
        &&& string_field(value, after.uses)
    } else if lower == "run"@ {
        &&& failure is None
        &&& after == (Step { run: after.run, ..before })
        &&& string_field(value, after.run)
    } else if lower == "shell"@ {
        &&& failure is None
        &&& after == (Step { shell: after.shell, ..before })
        &&& string_field(value, after.shell)
    } else if lower == "with"@ {
        &&& failure is None
        &&& after == (Step { with: after.with, ..before })
        &&& string_map_field(value, after.with)
    } else if lower == "env"@ {
        &&& failure is None
        &&& after == (Step { env: after.env, ..before })
        &&& string_map_field(value, after.env)
    } else {
        after == before && failure == Some(unexpected_key_note(lower, pointer))
    }
}

/// Whether taking in `pair` may turn the step `before` into `after` with
/// `failure` to report. The key is compared in lower case. A key that is no
/// string is reported where it stands, and the pair is skipped.
pub open spec fn step_field_set(
    pair: (YamlNode, YamlNode),
    before: Step,
    after: Step,
    failure: Option<AnnotationView>,
) -> bool {
    match pair.0.yaml {
        Yaml::Str(key) => step_field_lowered(
            lowercased(key@),
            pair.0.pointer(),
            &pair.1,
            before,
            after,
            failure,
        ),
        _ => after == before && failure == Some(
            mismatch_note(ExpectedView::Only(YamlKind::Str), pair.0.yaml.kind(), pair.0),
        ),
    }
}

impl StepBuilder {
    /// The step as it has been collected.
    pub fn finish(self) -> (step: Step)
        ensures
            step == self.step,
    {
        self.step
    }

    pub fn empty() -> (builder: StepBuilder)
        ensures
            builder.step == Step::blank(),
    {
        StepBuilder { step: Step::default() }
    }

    /// Takes in one pair of a step's mapping. What cannot be taken in is
    /// handed back as the diagnostic to report; nothing is reported here.
    pub fn build(&mut self, key: &YamlNode, value: &YamlNode, annotations: &mut Annotations) -> (outcome:
        Fallible<Annotation>)
        ensures
            final(annotations)@ == old(annotations)@,
            step_field_set(
                (*key, *value),
                old(self).step,
                final(self).step,
                match outcome {
                    Fallible::Success => None,
                    Fallible::Failure(note) => Some(note@),
                },
            ),
    {
        match key.extract_str() {
            Err(u) => Fallible::Failure(u.at(key)),
            Ok(s) => {
                let lower = lowercase(s);
                self.build_lowered(lower.as_str(), key, value, annotations)
            },
        }
    }

    /// Takes in one field of a step whose key, in lower case, is `lower` and
    /// stands at `key`. An unknown key is handed back as the diagnostic to
    /// report; nothing is reported here.
    pub fn build_lowered(
        &mut self,
        lower: &str,
        key: &YamlNode,
        value: &YamlNode,
        annotations: &mut Annotations,
    ) -> (outcome: Fallible<Annotation>)
        ensures
            final(annotations)@ == old(annotations)@,
            step_field_lowered(
                lower@,
                key.pointer(),
                value,
                old(self).step,
                final(self).step,
                match outcome {
                    Fallible::Success => None,
                    Fallible::Failure(note) => Some(note@),
                },
            ),
    {
        if same_text(lower, "id") {
            self.step.id = parse_string(value, annotations);
            Fallible::Success
        } else if same_text(lower, "if") {
            self.step.cond = parse_string(value, annotations);
            Fallible::Success
        } else if same_text(lower, "name") {
            self.step.name = parse_string(value, annotations);
            Fallible::Success
        } else if same_text(lower, "uses") {
            self.step.uses = parse_string(value, annotations);
            Fallible::Success
        } else if same_text(lower, "run") {
            self.step.run = parse_string(value, annotations);
            Fallible::Success
        } else if same_text(lower, "shell") {
            self.step.shell = parse_string(value, annotations);
            Fallible::Success
        } else if same_text(lower, "with") {
            self.step.with = parse_string_map(value, annotations);
            Fallible::Success
        } else if same_text(lower, "env") {
            self.step.env = parse_string_map(value, annotations);
            Fallible::Success
        } else {
            Fallible::Failure(UnexpectedKey::from(lower).at(key))
        }
    }
}

/// The diagnostics that a failure amounts to: itself, or none.
pub open spec fn reported(failure: Option<AnnotationView>) -> Seq<AnnotationView> {
    match failure {
        Some(note) => seq![note],
        None => Seq::empty(),
    }
}

/// Whether the step may pass through `states` while `pairs` are taken in one
/// by one, with `failures[i]` to report on pair `i`.
pub open spec fn step_fields_set(
    pairs: Seq<(YamlNode, YamlNode)>,
    states: Seq<Step>,
    failures: Seq<Option<AnnotationView>>,
) -> bool {
    &&& states.len() == pairs.len() + 1
    &&& failures.len() == pairs.len()
    &&& forall|i: int|
        0 <= i < pairs.len() ==> step_field_set(
            pairs[i],
            #[trigger] states[i],
            states[i + 1],
            failures[i],
        )
}

/// Whether `kind` with `notes` is what a step may be read as from `root`: a
/// mapping becomes the step of its pairs, taken in source order, and every
/// failure is reported in that order; any other node becomes one `Invalid`.
pub open spec fn step_parsed(
    root: &YamlNode,
    kind: PossumNodeKind<Step>,
    notes: Seq<AnnotationView>,
) -> bool {
    match root.yaml {
        Yaml::Mapping(pairs) => {
            &&& kind matches PossumNodeKind::Value(step)
            &&& exists|states: Seq<Step>, failures: Seq<Option<AnnotationView>>| #[trigger]
                step_fields_set(pairs@, states, failures) && states[0] == Step::blank()
                    && states.last() == step && notes == joined(
                    failures.map_values(|failure: Option<AnnotationView>| reported(failure)),
                )
        },
        _ => invalid_for(kind, YamlKind::Mapping, root.yaml.kind()) && notes.len() == 0,
    }
}

/// Reads one step.
pub struct StepParser;

impl StepParser {
    pub fn new() -> (parser: StepParser)
        ensures
            parser == StepParser,
    {
        StepParser
    }
}

impl Parser<Step> for StepParser {
    open spec fn ready(&self) -> bool {
        true
    }

    open spec fn parses(
        &self,
        root: &YamlNode,
        kind: PossumNodeKind<Step>,
        notes: Seq<AnnotationView>,
    ) -> bool {
        step_parsed(root, kind, notes)
    }

    fn parse_node(&self, root: &YamlNode, annotations: &mut Annotations) -> (kind: PossumNodeKind<
        Step,
    >) {
        match root.extract_map() {
            Err(u) => PossumNodeKind::Invalid(u.to_string()),
            Ok(m) => {
                let ghost before = annotations@;
                let ghost shown = |failure: Option<AnnotationView>| reported(failure);
                let mut builder = StepBuilder::empty();
                let ghost mut states: Seq<Step> = seq![builder.step];
                let ghost mut failures: Seq<Option<AnnotationView>> = Seq::empty();
                let mut i: usize = 0;
                proof {
                    assert(failures.map_values(shown) =~= Seq::empty());
                    assert(annotations@ =~= before + joined(failures.map_values(shown)));
                }
                while i < m.len()
                    invariant
                        0 <= i <= m@.len(),
                        states.len() == i + 1,
                        failures.len() == i,
                        states[0] == Step::blank(),
                        states[i as int] == builder.step,
                        shown == |failure: Option<AnnotationView>| reported(failure),
                        annotations@ == before + joined(failures.map_values(shown)),
                        forall|j: int|
                            0 <= j < i ==> step_field_set(
                                m@[j],
                                #[trigger] states[j],
                                states[j + 1],
                                failures[j],
                            ),
                    decreases m@.len() - i,
                {
                    let ghost earlier = annotations@;
                    let ghost held = builder.step;
                    let key = &m[i].0;
                    let value = &m[i].1;
                    let ghost failure: Option<AnnotationView>;
                    match builder.build(key, value, annotations) {
                        Fallible::Success => {
                            proof {
                                failure = None;
                            }
                        },
                        Fallible::Failure(a) => {
                            proof {
                                failure = Some(a@);
                            }
                            annotations.add(a);
                        },
                    }
                    proof {
                        assert(annotations@ =~= earlier + reported(failure));
                        lemma_joined_push(failures.map_values(shown), reported(failure));
                        assert(failures.push(failure).map_values(shown) =~= failures.map_values(
                            shown,
                        ).push(reported(failure)));
                        assert(step_field_set(m@[i as int], held, builder.step, failure));
                        states = states.push(builder.step);
                        failures = failures.push(failure);
                        assert(annotations@ =~= before + joined(failures.map_values(shown)));
                    }
                    i += 1;
                }
                let step: Step = builder.finish();
                let kind = PossumNodeKind::Value(step);
                proof {
                    lemma_added_since(before, joined(failures.map_values(shown)));
                    assert(states.last() == step);
                    assert(step_fields_set(m@, states, failures));
                    assert(step_parsed(root, kind, joined(failures.map_values(shown))));
                }
                kind
            },
        }
    }
}

} // verus!
