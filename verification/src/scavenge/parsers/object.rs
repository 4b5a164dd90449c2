//! Parsing a mapping into a record: a builder takes the pairs one by one and
//! is turned into the record when the last pair is in.
use super::concrete::invalid_for;
use crate::document::annotation::{
    added_since, joined, lemma_added_since, lemma_grown, lemma_joined_push,
};
use crate::document::{AnnotationView, Annotations, AsDocumentPointer, DocumentPointer};
use crate::scavenge::ast::PossumNodeKind;
use crate::scavenge::extraction::{mismatch_note, ExpectedView, Extract};
use crate::scavenge::parser::Parser;
use crate::scavenge::yaml::{Yaml, YamlKind, YamlNode};
use std::marker::PhantomData;
use vstd::prelude::*;

verus! {

/// Collects the fields of one record of type `T`. A builder is made afresh
/// for every mapping, is handed each pair whose key is a string, and becomes
/// the record when `finish` is called. A key that it does not know it reports
/// to the collector; it never fails.
pub trait Builder<T>: Sized {
    /// Whether handing the builder `self` the key `key`, found at `pointer`,
    /// with its value may leave the builder as `after` while reporting
    /// `notes`.
    spec fn builds(
        self,
        key: Seq<char>,
        value: &YamlNode,
        pointer: DocumentPointer,
        after: Self,
        notes: Seq<AnnotationView>,
    ) -> bool;

    /// The record that the builder turns into as it is.
    spec fn built(self) -> T;

    fn finish(self) -> (built: T)
        ensures
            built == self.built(),
    ;

    fn build<P: AsDocumentPointer>(
        &mut self,
        key: &str,
        value: &YamlNode,
        pointer: &P,
        annotations: &mut Annotations,
    )
        ensures
            old(annotations)@.is_prefix_of(final(annotations)@),
            old(self).builds(
                key@,
                value,
                pointer.pointer(),
                *final(self),
                added_since(old(annotations)@, final(annotations)@),
            ),
    ;
}

/// Whether taking in `pair` may turn the builder `before` into `after` while
/// reporting `notes`. A pair whose key is no string is skipped, and its key
/// is reported where it stands.
pub open spec fn pair_built<T, B: Builder<T>>(
    pair: (YamlNode, YamlNode),
    before: B,
    after: B,
    notes: Seq<AnnotationView>,
) -> bool {
    match pair.0.yaml {
        Yaml::Str(key) => before.builds(key@, &pair.1, pair.0.pointer(), after, notes),
        _ => after == before && notes == seq![
            mismatch_note(ExpectedView::Only(YamlKind::Str), pair.0.yaml.kind(), pair.0),
        ],
    }
}

/// Whether the builder may pass through `states` while it takes in `pairs`
/// one by one, reporting `parts[i]` on pair `i`.
pub open spec fn pairs_built<T, B: Builder<T>>(
    pairs: Seq<(YamlNode, YamlNode)>,
    states: Seq<B>,
    parts: Seq<Seq<AnnotationView>>,
) -> bool {
    &&& states.len() == pairs.len() + 1
    &&& parts.len() == pairs.len()
    &&& forall|i: int|
        0 <= i < pairs.len() ==> pair_built(pairs[i], #[trigger] states[i], states[i + 1], parts[i])
}

/// Whether a builder that starts as `start` may make `kind` of `root` while
/// reporting `notes`: a mapping becomes the record of its pairs, taken in
/// source order; any other node becomes one `Invalid` and reports nothing.
pub open spec fn object_parsed<T, B: Builder<T>>(
    start: B,
    root: &YamlNode,
    kind: PossumNodeKind<T>,
    notes: Seq<AnnotationView>,
) -> bool {
    match root.yaml {
        Yaml::Mapping(pairs) => {
            &&& kind matches PossumNodeKind::Value(built)
            &&& exists|states: Seq<B>, parts: Seq<Seq<AnnotationView>>| #[trigger]
                pairs_built(pairs@, states, parts) && states[0] == start && built
                    == states.last().built() && notes == joined(parts)
        },
        _ => invalid_for(kind, YamlKind::Mapping, root.yaml.kind()) && notes.len() == 0,
    }
}

/// Parses a mapping into a `T` with a builder that `builder` makes afresh for
/// every mapping.
#[verifier::reject_recursive_types(B)]
#[verifier::reject_recursive_types(F)]
#[verifier::reject_recursive_types(T)]
pub struct ObjectParser<B: Builder<T>, F: Fn() -> B, T> {
    pub builder: F,
    pub _t: PhantomData<T>,
}

impl<B: Builder<T>, F: Fn() -> B, T> ObjectParser<B, F, T> {
    pub fn new(builder: F) -> (made: ObjectParser<B, F, T>)
        ensures
            made.builder == builder,
    {
        ObjectParser { builder, _t: PhantomData }
    }
}

impl<B: Builder<T>, F: Fn() -> B, T> ObjectParser<B, F, T> {
    /// What it means for a record parser to be ready and to parse, spelled
    /// out for any builder and any function that makes one.
    pub proof fn lemma_object(
        self,
        root: &YamlNode,
        kind: PossumNodeKind<T>,
        notes: Seq<AnnotationView>,
    )
        ensures
            self.ready() <==> call_requires(self.builder, ()),
            self.parses(root, kind, notes) <==> match root.yaml {
                Yaml::Mapping(_) => exists|start: B| #[trigger]
                    call_ensures(self.builder, (), start) && object_parsed(
                        start,
                        root,
                        kind,
                        notes,
                    ),
                _ => invalid_for(kind, YamlKind::Mapping, root.yaml.kind()) && notes.len() == 0,
            },
    {
    }

    /// A node that is no mapping becomes one `Invalid` that names what was
    /// found: no builder is made, no record is filled in part, and nothing
    /// is reported.
    pub proof fn lemma_object_refuses(
        self,
        root: &YamlNode,
        kind: PossumNodeKind<T>,
        notes: Seq<AnnotationView>,
    )
        requires
            self.parses(root, kind, notes),
            !(root.yaml is Mapping),
        ensures
            invalid_for(kind, YamlKind::Mapping, root.yaml.kind()),
            notes.len() == 0,
    {
    }
}

impl<B: Builder<T>, F: Fn() -> B, T> Parser<T> for ObjectParser<B, F, T> {
    open spec fn ready(&self) -> bool {
        call_requires(self.builder, ())
    }

    open spec fn parses(
        &self,
        root: &YamlNode,
        kind: PossumNodeKind<T>,
        notes: Seq<AnnotationView>,
    ) -> bool {
        match root.yaml {
            Yaml::Mapping(_) => exists|start: B| #[trigger]
                call_ensures(self.builder, (), start) && object_parsed(start, root, kind, notes),
            _ => invalid_for(kind, YamlKind::Mapping, root.yaml.kind()) && notes.len() == 0,
        }
    }

    fn parse_node(&self, root: &YamlNode, annotations: &mut Annotations) -> (kind: PossumNodeKind<
        T,
    >) {
        match root.extract_map() {
            Err(u) => PossumNodeKind::Invalid(u.to_string()),
            Ok(m) => {
                let ghost before = annotations@;
                let mut builder = (self.builder)();
                let ghost start = builder;
                let ghost mut states: Seq<B> = seq![builder];
                let ghost mut parts: Seq<Seq<AnnotationView>> = Seq::empty();
                let mut i: usize = 0;
                proof {
                    assert(annotations@ =~= before + joined(parts));
                }
                while i < m.len()
                    invariant
                        0 <= i <= m@.len(),
                        states.len() == i + 1,
                        parts.len() == i,
                        states[0] == start,
                        states[i as int] == builder,
                        annotations@ == before + joined(parts),
                        forall|j: int|
                            0 <= j < i ==> pair_built(
                                m@[j],
                                #[trigger] states[j],
                                states[j + 1],
                                parts[j],
                            ),
                    decreases m@.len() - i,
                {
                    let ghost earlier = annotations@;
                    let key = &m[i].0;
                    let value = &m[i].1;
                    match key.extract_str() {
                        Err(u) => {
                            annotations.add(u.at(key));
                            proof {
                                assert(annotations@.skip(earlier.len() as int) =~= seq![
                                    mismatch_note(
                                        ExpectedView::Only(YamlKind::Str),
                                        key.yaml.kind(),
                                        *key,
                                    ),
                                ]);
                            }
                        },
                        Ok(s) => {
                            builder.build(s, value, key, annotations);
                        },
                    }
                    proof {
                        let part = annotations@.skip(earlier.len() as int);
                        assert(earlier.is_prefix_of(annotations@));
                        lemma_grown(earlier, annotations@);
                        lemma_joined_push(parts, part);
                        assert(pair_built(m@[i as int], states[i as int], builder, part));
                        states = states.push(builder);
                        parts = parts.push(part);
                        assert(annotations@ =~= before + joined(parts));
                    }
                    i += 1;
                }
                let built: T = builder.finish();
                let kind = PossumNodeKind::Value(built);
                proof {
                    lemma_added_since(before, joined(parts));
                    assert(states.last() == builder);
                    assert(pairs_built(root.yaml->Mapping_0@, states, parts));
                    assert(object_parsed(start, root, kind, joined(parts)));
                    assert(self.parses(root, kind, annotations@.skip(before.len() as int)));
                }
                kind
            },
        }
    }
}

} // verus!
