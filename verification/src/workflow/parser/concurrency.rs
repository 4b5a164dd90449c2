//! Concurrency: a bare group name, or a mapping with `group` and
//! `cancel-in-progress`.
use super::{bool_field, none_of, parse_bool, parse_string, string_field, unexpected};
use crate::document::annotation::{
    added_since, joined, lemma_added_since, lemma_grown, lemma_joined_push,
};
use crate::document::{AnnotationView, Annotations, AsDocumentPointer, DocumentPointer};
use crate::scavenge::ast::{PossumNode, PossumNodeKind};
use crate::scavenge::extraction::{mismatch_note, ExpectedView, Extract};
use crate::scavenge::parser::{unexpected_key_note, Parser, UnexpectedKey};
use crate::scavenge::parsers::{
    invalid_for, mapped_by, string_kind, OrParser, StringParser, TransformParser,
};
use crate::scavenge::yaml::{Yaml, YamlKind, YamlNode};
use crate::text::{lowercase, lowercased, same_text};
use crate::workflow::Concurrency;
use vstd::prelude::*;

verus! {

/// Reads the concurrency of a workflow or a job.
pub struct ConcurrencyParser;

impl ConcurrencyParser {
    pub fn new() -> (parser: ConcurrencyParser)
        ensures
            parser == ConcurrencyParser,
    {
        ConcurrencyParser
    }
}

/// Reads a string as the name of a concurrency group.
pub struct ConcurrencyStringParser;

/// Reads a mapping as a concurrency group with its settings.
pub struct ConcurrencyMapParser;

/// The two settings of a concurrency group, each absent until its key is met.
pub type GroupFields = (Option<PossumNode<String>>, Option<PossumNode<bool>>);

/// `kind` is what a string is read as: the group of that name.
pub open spec fn group_named(root: &YamlNode, kind: PossumNodeKind<Concurrency>) -> bool {
    match root.yaml {
        Yaml::Str(text) => kind matches PossumNodeKind::Value(Concurrency::Concurrency(name))
            && name@ == text@,
        _ => invalid_for(kind, YamlKind::Str, root.yaml.kind()),
    }
}

/// Whether taking in a setting may turn the settings `before` into `after`
/// while reporting `notes`, where the key of the setting is `lower` in lower
/// case and stands at `pointer`. `group` takes a string and
/// `cancel-in-progress` a boolean, each put at the value's place; any other
/// key is reported in lower case, where the key stands.
pub open spec fn group_field_lowered(
    lower: Seq<char>,
    pointer: DocumentPointer,
    value: &YamlNode,
    before: GroupFields,
    after: GroupFields,
    notes: Seq<AnnotationView>,
) -> bool {
    if lower == "group"@ {
        notes.len() == 0 && after.1 == before.1 && string_field(value, after.0)
    } else if lower == "cancel-in-progress"@ {
        notes.len() == 0 && after.0 == before.0 && bool_field(value, after.1)
    } else {
        after == before && notes == seq![unexpected_key_note(lower, pointer)]
    }
}

/// Whether taking in `pair` may turn the settings `before` into `after` while
/// reporting `notes`. The key is compared in lower case. A key that is no
/// string is reported where it stands, and the pair is skipped.
pub open spec fn group_field_set(
    pair: (YamlNode, YamlNode),
    before: GroupFields,
    after: GroupFields,
    notes: Seq<AnnotationView>,
) -> bool {
    match pair.0.yaml {
        Yaml::Str(key) => group_field_lowered(
            lowercased(key@),
            pair.0.pointer(),
            &pair.1,
            before,
            after,
            notes,
        ),
        _ => after == before && notes == seq![
            mismatch_note(ExpectedView::Only(YamlKind::Str), pair.0.yaml.kind(), pair.0),
        ],
    }
}

/// Takes in one setting of a concurrency group. `lower` is the key in lower
/// case, which stands at `pointer`.
pub fn set_group_field<P: AsDocumentPointer>(
    fields: GroupFields,
    lower: &str,
    pointer: &P,
    value: &YamlNode,
    annotations: &mut Annotations,
) -> (after: GroupFields)
    ensures
        old(annotations)@.is_prefix_of(final(annotations)@),
        group_field_lowered(
            lower@,
            pointer.pointer(),
            value,
            fields,
            after,
            added_since(old(annotations)@, final(annotations)@),
        ),
{
    if same_text(lower, "group") {
        (parse_string(value, annotations), fields.1)
    } else if same_text(lower, "cancel-in-progress") {
        (fields.0, parse_bool(value, annotations))
    } else {
        annotations.add(UnexpectedKey::from(lower).at(pointer));
        assert(annotations@.skip(old(annotations)@.len() as int) =~= seq![
            unexpected_key_note(lower@, pointer.pointer()),
        ]);
        fields
    }
}

/// Whether the settings may pass through `states` while `pairs` are taken in
/// one by one, reporting `parts[i]` on pair `i`.
pub open spec fn group_fields_set(
    pairs: Seq<(YamlNode, YamlNode)>,
    states: Seq<GroupFields>,
    parts: Seq<Seq<AnnotationView>>,
) -> bool {
    &&& states.len() == pairs.len() + 1
    &&& parts.len() == pairs.len()
    &&& forall|i: int|
        0 <= i < pairs.len() ==> group_field_set(
            pairs[i],
            #[trigger] states[i],
            states[i + 1],
            parts[i],
        )
}

/// Whether `kind` with `notes` is what a mapping may be read as: the group
/// whose settings are those of its pairs, a later pair overriding an earlier
/// one of the same key.
pub open spec fn group_parsed(
    root: &YamlNode,
    kind: PossumNodeKind<Concurrency>,
    notes: Seq<AnnotationView>,
) -> bool {
    match root.yaml {
        Yaml::Mapping(pairs) => {
            &&& kind matches PossumNodeKind::Value(Concurrency::Group { group, cancel_in_progress })
            &&& exists|states: Seq<GroupFields>, parts: Seq<Seq<AnnotationView>>| #[trigger]
                group_fields_set(pairs@, states, parts) && states[0] == (
                    None::<PossumNode<String>>,
                    None::<PossumNode<bool>>,
                ) && states.last() == (group, cancel_in_progress) && notes == joined(parts)
        },
        _ => invalid_for(kind, YamlKind::Mapping, root.yaml.kind()) && notes.len() == 0,
    }
}

/// Whether `kind` with `notes` is what concurrency may be read as from
/// `root`: a string names a group, a mapping describes one, and any other
/// node is `Invalid`.
pub open spec fn concurrency_parsed(
    root: &YamlNode,
    kind: PossumNodeKind<Concurrency>,
    notes: Seq<AnnotationView>,
) -> bool {
    match root.yaml {
        Yaml::Str(_) => group_named(root, kind) && notes.len() == 0,
        Yaml::Mapping(_) => group_parsed(root, kind, notes),
        _ => none_of(kind, seq![YamlKind::Str, YamlKind::Mapping], root) && notes.len() == 0,
    }
}

fn named(s: String) -> (c: Concurrency)
    ensures
        c == Concurrency::Concurrency(s),
{
    Concurrency::Concurrency(s)
}

impl Parser<Concurrency> for ConcurrencyStringParser {
    open spec fn ready(&self) -> bool {
        true
    }

    open spec fn parses(
        &self,
        root: &YamlNode,
        kind: PossumNodeKind<Concurrency>,
        notes: Seq<AnnotationView>,
    ) -> bool {
        group_named(root, kind) && notes.len() == 0
    }

    fn parse_node(&self, root: &YamlNode, annotations: &mut Annotations) -> (kind: PossumNodeKind<
        Concurrency,
    >) {
        let parser = TransformParser::new(StringParser, named);
        assert(parser.parser.ready());
        assert(forall|s: String| call_requires(named, (s,)));
        assert(parser.transform == named);
        assert(forall|s: String| call_requires(parser.transform, (s,)));
        proof {
            parser.lemma_transform(root, PossumNodeKind::Empty, Seq::empty());
        }
        assert(parser.ready());
        let kind = parser.parse_node(root, annotations);
        proof {
            let notes = annotations@.skip(old(annotations)@.len() as int);
            parser.lemma_transform(root, kind, notes);
            let inner = choose|inner: PossumNodeKind<String>| #[trigger]
                parser.parser.parses(root, inner, notes) && mapped_by(
                    parser.transform,
                    inner,
                    kind,
                );
            assert(string_kind(root.yaml, inner));
        }
        kind
    }
}

impl Parser<Concurrency> for ConcurrencyMapParser {
    open spec fn ready(&self) -> bool {
        true
    }

    open spec fn parses(
        &self,
        root: &YamlNode,
        kind: PossumNodeKind<Concurrency>,
        notes: Seq<AnnotationView>,
    ) -> bool {
        group_parsed(root, kind, notes)
    }

    fn parse_node(&self, root: &YamlNode, annotations: &mut Annotations) -> (kind: PossumNodeKind<
        Concurrency,
    >) {
        match root.extract_map() {
            Err(u) => PossumNodeKind::Invalid(u.to_string()),
            Ok(concur) => {
                let ghost before = annotations@;
                let mut fields: GroupFields = (None, None);
                let ghost mut states: Seq<GroupFields> = seq![fields];
                let ghost mut parts: Seq<Seq<AnnotationView>> = Seq::empty();
                let mut i: usize = 0;
                proof {
                    assert(annotations@ =~= before + joined(parts));
                }
                while i < concur.len()
                    invariant
                        0 <= i <= concur@.len(),
                        states.len() == i + 1,
                        parts.len() == i,
                        states[0] == (None::<PossumNode<String>>, None::<PossumNode<bool>>),
                        states[i as int] == fields,
                        annotations@ == before + joined(parts),
                        forall|j: int|
                            0 <= j < i ==> group_field_set(
                                concur@[j],
                                #[trigger] states[j],
                                states[j + 1],
                                parts[j],
                            ),
                    decreases concur@.len() - i,
                {
                    let ghost earlier = annotations@;
                    let ghost held = fields;
                    let key = &concur[i].0;
                    let value = &concur[i].1;
                    match key.extract_str() {
                        Err(u) => {
                            annotations.add(u.at(key));
                            proof {
                                assert(annotations@.skip(earlier.len() as int) =~= seq![
                                    mismatch_note(
                                        ExpectedView::Only(YamlKind::Str),
                                        key.yaml.kind(),
                                        *key,
                                    ),
                                ]);
                            }
                        },
                        Ok(k) => {
                            let lower = lowercase(k);
                            fields = set_group_field(
                                fields,
                                lower.as_str(),
                                key,
                                value,
                                annotations,
                            );
                        },
                    }
                    proof {
                        let part = annotations@.skip(earlier.len() as int);
                        lemma_grown(earlier, annotations@);
                        lemma_joined_push(parts, part);
                        assert(group_field_set(concur@[i as int], held, fields, part));
                        states = states.push(fields);
                        parts = parts.push(part);
                        assert(annotations@ =~= before + joined(parts));
                    }
                    i += 1;
                }
                let kind = PossumNodeKind::Value(
                    Concurrency::Group { group: fields.0, cancel_in_progress: fields.1 },
                );
                proof {
                    lemma_added_since(before, joined(parts));
                    assert(states.last() == fields);
                    assert(group_fields_set(concur@, states, parts));
                    assert(group_parsed(root, kind, joined(parts)));
                }
                kind
            },
        }
    }
}

impl Parser<Concurrency> for ConcurrencyParser {
    open spec fn ready(&self) -> bool {
        true
    }

    open spec fn parses(
        &self,
        root: &YamlNode,
        kind: PossumNodeKind<Concurrency>,
        notes: Seq<AnnotationView>,
    ) -> bool {
        concurrency_parsed(root, kind, notes)
    }

    fn parse_node(&self, root: &YamlNode, annotations: &mut Annotations) -> (kind: PossumNodeKind<
        Concurrency,
    >) {
        let neither = |r: &YamlNode| -> (k: PossumNodeKind<Concurrency>)
            ensures
                none_of(k, seq![YamlKind::Str, YamlKind::Mapping], r),
            { unexpected(vec![YamlKind::Str, YamlKind::Mapping], r) };
        let parser = OrParser::new(ConcurrencyStringParser, ConcurrencyMapParser, neither);
        assert(parser.lhs.ready() && parser.rhs.ready());
        assert(forall|r: &YamlNode| call_requires(neither, (r,)));
        proof {
            parser.lemma_or(root, PossumNodeKind::Empty, Seq::empty());
        }
        let kind = parser.parse_node(root, annotations);
        proof {
            let notes = annotations@.skip(old(annotations)@.len() as int);
            parser.lemma_or(root, kind, notes);
            let (first, first_notes, second, second_notes) = choose|
                first: PossumNodeKind<Concurrency>,
                first_notes: Seq<AnnotationView>,
                second: PossumNodeKind<Concurrency>,
                second_notes: Seq<AnnotationView>,
            | #[trigger]
                parser.attempts(root, first, first_notes, second, second_notes, kind, notes);
            assert(group_named(root, first) && first_notes.len() == 0);
            if first is Invalid {
                assert(group_parsed(root, second, second_notes));
                assert(notes =~= second_notes);
            }
        }
        kind
    }
}

} // verus!
