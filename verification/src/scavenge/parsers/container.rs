//! Parsers of the two YAML containers. Each holds the parser of what the
//! container holds and keeps the source order; a node of another class
//! becomes one `Invalid`, never a container that is filled in part.
use super::concrete::{invalid_for, string_kind, StringParser};
use crate::document::annotation::{
    joined, lemma_grown, lemma_grown_twice, lemma_joined_empty, lemma_joined_push,
};
use crate::document::{AnnotationView, Annotations, AsDocumentPointer};
use crate::scavenge::ast::{PossumMap, PossumNode, PossumNodeKind, PossumSeq};
use crate::scavenge::extraction::Extract;
use crate::scavenge::parser::Parser;
use crate::scavenge::yaml::{Yaml, YamlKind, YamlNode};
use std::marker::PhantomData;
use vstd::prelude::*;

verus! {

/// What the pairs of a mapping report, pair by pair: the notes of a key, then
/// those of its value.
pub open spec fn pair_notes(
    key_notes: Seq<Seq<AnnotationView>>,
    value_notes: Seq<Seq<AnnotationView>>,
) -> Seq<Seq<AnnotationView>> {
    Seq::new(key_notes.len(), |i: int| key_notes[i] + value_notes[i])
}

/// Parses a mapping pair by pair: every key with `keys`, every value with
/// `values`, each put at the position of the node it came from.
#[verifier::reject_recursive_types(K)]
#[verifier::reject_recursive_types(V)]
#[verifier::reject_recursive_types(KP)]
#[verifier::reject_recursive_types(VP)]
pub struct MapParser<K, V, KP: Parser<K>, VP: Parser<V>> {
    pub keys: KP,
    pub values: VP,
    pub _k: PhantomData<K>,
    pub _v: PhantomData<V>,
}

impl<K, V, KP: Parser<K>, VP: Parser<V>> MapParser<K, V, KP, VP> {
    pub fn new(keys: KP, values: VP) -> (made: MapParser<K, V, KP, VP>)
        ensures
            made.keys == keys,
            made.values == values,
    {
        MapParser { keys, values, _k: PhantomData, _v: PhantomData }
    }

    /// Whether `entries` is what the parsers may make of `pairs`, entry `i`
    /// from pair `i`, while the key of pair `i` reports `key_notes[i]` and
    /// its value `value_notes[i]`.
    pub open spec fn pairs_parsed(
        &self,
        pairs: Seq<(YamlNode, YamlNode)>,
        entries: Seq<(PossumNode<K>, PossumNode<V>)>,
        key_notes: Seq<Seq<AnnotationView>>,
        value_notes: Seq<Seq<AnnotationView>>,
    ) -> bool {
        &&& entries.len() == pairs.len()
        &&& key_notes.len() == pairs.len()
        &&& value_notes.len() == pairs.len()
        &&& forall|i: int|
            0 <= i < pairs.len() ==> {
                &&& (#[trigger] entries[i]).0.location == pairs[i].0.pointer()
                &&& entries[i].1.location == pairs[i].1.pointer()
                &&& self.keys.parses(&pairs[i].0, entries[i].0.kind, key_notes[i])
                &&& self.values.parses(&pairs[i].1, entries[i].1.kind, value_notes[i])
            }
    }
}

impl<K, V, KP: Parser<K>, VP: Parser<V>> Parser<PossumMap<K, V>> for MapParser<K, V, KP, VP> {
    open spec fn ready(&self) -> bool {
        self.keys.ready() && self.values.ready()
    }

    open spec fn parses(
        &self,
        root: &YamlNode,
        kind: PossumNodeKind<PossumMap<K, V>>,
        notes: Seq<AnnotationView>,
    ) -> bool {
        match root.yaml {
            Yaml::Mapping(pairs) => {
                &&& kind matches PossumNodeKind::Value(map)
                &&& exists|
                    key_notes: Seq<Seq<AnnotationView>>,
                    value_notes: Seq<Seq<AnnotationView>>,
                | #[trigger]
                    self.pairs_parsed(pairs@, map@, key_notes, value_notes) && notes == joined(
                        pair_notes(key_notes, value_notes),
                    )
            },
            _ => invalid_for(kind, YamlKind::Mapping, root.yaml.kind()) && notes.len() == 0,
        }
    }

    fn parse_node(&self, root: &YamlNode, annotations: &mut Annotations) -> (kind: PossumNodeKind<
        PossumMap<K, V>,
    >) {
        match root.extract_map() {
            Err(u) => PossumNodeKind::Invalid(u.to_string()),
            Ok(m) => {
                let ghost before = annotations@;
                let ghost mut key_notes: Seq<Seq<AnnotationView>> = Seq::empty();
                let ghost mut value_notes: Seq<Seq<AnnotationView>> = Seq::empty();
                let mut map: PossumMap<K, V> = PossumMap::empty();
                let mut i: usize = 0;
                proof {
                    assert(pair_notes(key_notes, value_notes) =~= Seq::empty());
                    assert(annotations@ =~= before + joined(pair_notes(key_notes, value_notes)));
                }
                while i < m.len()
                    invariant
                        self.ready(),
                        0 <= i <= m@.len(),
                        map@.len() == i,
                        key_notes.len() == i,
                        value_notes.len() == i,
                        annotations@ == before + joined(pair_notes(key_notes, value_notes)),
                        forall|j: int|
                            0 <= j < i ==> {
                                &&& (#[trigger] map@[j]).0.location == m@[j].0.pointer()
                                &&& map@[j].1.location == m@[j].1.pointer()
                                &&& self.keys.parses(&m@[j].0, map@[j].0.kind, key_notes[j])
                                &&& self.values.parses(&m@[j].1, map@[j].1.kind, value_notes[j])
                            },
                    decreases m@.len() - i,
                {
                    let ghost start = annotations@;
                    let key = &m[i].0;
                    let value = &m[i].1;
                    let k: PossumNodeKind<K> = self.keys.parse_node(key, annotations);
                    let ghost middle = annotations@;
                    let v: PossumNodeKind<V> = self.values.parse_node(value, annotations);
                    proof {
                        let key_part = middle.skip(start.len() as int);
                        let value_part = annotations@.skip(middle.len() as int);
                        lemma_grown_twice(start, middle, annotations@);
                        lemma_grown(start, annotations@);
                        let parts = pair_notes(key_notes, value_notes);
                        lemma_joined_push(parts, key_part + value_part);
                        assert(pair_notes(key_notes.push(key_part), value_notes.push(value_part))
                            =~= parts.push(key_part + value_part));
                        key_notes = key_notes.push(key_part);
                        value_notes = value_notes.push(value_part);
                        assert(annotations@ =~= before + joined(
                            pair_notes(key_notes, value_notes),
                        ));
                    }
                    map.insert(k.at(key), v.at(value));
                    i += 1;
                }
                let ghost entries = map@;
                let kind = PossumNodeKind::Value(map);
                proof {
                    assert(annotations@.skip(before.len() as int) =~= joined(
                        pair_notes(key_notes, value_notes),
                    ));
                    assert(kind->Value_0@ == entries);
                    assert(self.pairs_parsed(
                        root.yaml->Mapping_0@,
                        kind->Value_0@,
                        key_notes,
                        value_notes,
                    ));
                    assert(self.parses(root, kind, annotations@.skip(before.len() as int)));
                }
                kind
            },
        }
    }
}

impl<K, V, KP: Parser<K>, VP: Parser<V>> MapParser<K, V, KP, VP> {
    /// What it means for a mapping parser to be ready and to parse, spelled
    /// out for any parsers it is built from.
    pub proof fn lemma_map(
        self,
        root: &YamlNode,
        kind: PossumNodeKind<PossumMap<K, V>>,
        notes: Seq<AnnotationView>,
    )
        ensures
            self.ready() <==> self.keys.ready() && self.values.ready(),
            self.parses(root, kind, notes) <==> match root.yaml {
                Yaml::Mapping(pairs) => {
                    &&& kind matches PossumNodeKind::Value(map)
                    &&& exists|
                        key_notes: Seq<Seq<AnnotationView>>,
                        value_notes: Seq<Seq<AnnotationView>>,
                    | #[trigger]
                        self.pairs_parsed(pairs@, map@, key_notes, value_notes) && notes
                            == joined(pair_notes(key_notes, value_notes))
                },
                _ => invalid_for(kind, YamlKind::Mapping, root.yaml.kind()) && notes.len() == 0,
            },
    {
    }

    /// A parsed mapping holds one entry for every pair of the source, in the
    /// order of the source: entry `i` stands where pair `i` stands.
    pub proof fn lemma_map_keeps_order(
        self,
        root: &YamlNode,
        kind: PossumNodeKind<PossumMap<K, V>>,
        notes: Seq<AnnotationView>,
    )
        requires
            self.parses(root, kind, notes),
            root.yaml is Mapping,
        ensures
            kind is Value,
            kind->Value_0@.len() == root.yaml->Mapping_0@.len(),
            forall|i: int|
                0 <= i < root.yaml->Mapping_0@.len() ==> {
                    &&& (#[trigger] kind->Value_0@[i]).0.location
                        == root.yaml->Mapping_0@[i].0.pointer()
                    &&& kind->Value_0@[i].1.location == root.yaml->Mapping_0@[i].1.pointer()
                },
    {
    }

    /// A node that is no mapping becomes one `Invalid` that names what was
    /// found, and nothing is reported.
    pub proof fn lemma_map_refuses(
        self,
        root: &YamlNode,
        kind: PossumNodeKind<PossumMap<K, V>>,
        notes: Seq<AnnotationView>,
    )
        requires
            self.parses(root, kind, notes),
            !(root.yaml is Mapping),
        ensures
            invalid_for(kind, YamlKind::Mapping, root.yaml.kind()),
            notes.len() == 0,
    {
    }
}

impl<T, P: Parser<T>> SeqParser<T, P> {
    /// What it means for a sequence parser to be ready and to parse, spelled
    /// out for any parser it is built from.
    pub proof fn lemma_seq(
        self,
        root: &YamlNode,
        kind: PossumNodeKind<PossumSeq<T>>,
        notes: Seq<AnnotationView>,
    )
        ensures
            self.ready() <==> self.inner.ready(),
            self.parses(root, kind, notes) <==> match root.yaml {
                Yaml::Sequence(items) => {
                    &&& kind matches PossumNodeKind::Value(seq)
                    &&& exists|item_notes: Seq<Seq<AnnotationView>>| #[trigger]
                        self.items_parsed(items@, seq@, item_notes) && notes == joined(
                            item_notes,
                        )
                },
                _ => invalid_for(kind, YamlKind::Sequence, root.yaml.kind()) && notes.len()
                    == 0,
            },
    {
    }

    /// A parsed sequence holds one entry for every item of the source, in the
    /// order of the source.
    pub proof fn lemma_seq_keeps_order(
        self,
        root: &YamlNode,
        kind: PossumNodeKind<PossumSeq<T>>,
        notes: Seq<AnnotationView>,
    )
        requires
            self.parses(root, kind, notes),
            root.yaml is Sequence,
        ensures
            kind is Value,
            kind->Value_0@.len() == root.yaml->Sequence_0@.len(),
            forall|i: int|
                0 <= i < root.yaml->Sequence_0@.len() ==> (#[trigger] kind->Value_0@[i]).location
                    == root.yaml->Sequence_0@[i].pointer(),
    {
    }

    /// A node that is no sequence becomes one `Invalid` that names what was
    /// found, and nothing is reported.
    pub proof fn lemma_seq_refuses(
        self,
        root: &YamlNode,
        kind: PossumNodeKind<PossumSeq<T>>,
        notes: Seq<AnnotationView>,
    )
        requires
            self.parses(root, kind, notes),
            !(root.yaml is Sequence),
        ensures
            invalid_for(kind, YamlKind::Sequence, root.yaml.kind()),
            notes.len() == 0,
    {
    }
}

/// `kind` is a sequence read from `root` item by item, where `item` says what
/// an item is read as: one entry for every item, each put where its item
/// stands; a node that is no sequence is `Invalid`.
pub open spec fn sequence_kind<T>(
    root: &YamlNode,
    kind: PossumNodeKind<PossumSeq<T>>,
    item: spec_fn(YamlNode, PossumNodeKind<T>) -> bool,
) -> bool {
    match root.yaml {
        Yaml::Sequence(items) => {
            &&& kind matches PossumNodeKind::Value(seq)
            &&& seq@.len() == items@.len()
            &&& forall|i: int|
                0 <= i < items@.len() ==> {
                    &&& (#[trigger] seq@[i]).location == items@[i].pointer()
                    &&& item(items@[i], seq@[i].kind)
                }
        },
        _ => invalid_for(kind, YamlKind::Sequence, root.yaml.kind()),
    }
}

/// `kind` is a mapping read from `root` pair by pair, where `key` and `value`
/// say what a key and a value are read as: one entry for every pair, key and
/// value each put where it stands; a node that is no mapping is `Invalid`.
pub open spec fn mapping_kind<K, V>(
    root: &YamlNode,
    kind: PossumNodeKind<PossumMap<K, V>>,
    key: spec_fn(YamlNode, PossumNodeKind<K>) -> bool,
    value: spec_fn(YamlNode, PossumNodeKind<V>) -> bool,
) -> bool {
    match root.yaml {
        Yaml::Mapping(pairs) => {
            &&& kind matches PossumNodeKind::Value(map)
            &&& map@.len() == pairs@.len()
            &&& forall|i: int|
                0 <= i < pairs@.len() ==> {
                    &&& (#[trigger] map@[i]).0.location == pairs@[i].0.pointer()
                    &&& map@[i].1.location == pairs@[i].1.pointer()
                    &&& key(pairs@[i].0, map@[i].0.kind)
                    &&& value(pairs@[i].1, map@[i].1.kind)
                }
        },
        _ => invalid_for(kind, YamlKind::Mapping, root.yaml.kind()),
    }
}

impl<T, P: Parser<T>> SeqParser<T, P> {
    /// A sequence parser over a parser that reports nothing reports nothing,
    /// and what it yields is the sequence of what that parser yields.
    pub proof fn lemma_seq_quiet(
        self,
        root: &YamlNode,
        kind: PossumNodeKind<PossumSeq<T>>,
        notes: Seq<AnnotationView>,
        item: spec_fn(YamlNode, PossumNodeKind<T>) -> bool,
    )
        requires
            self.parses(root, kind, notes),
            forall|node: &YamlNode, made: PossumNodeKind<T>, said: Seq<AnnotationView>|
                #[trigger] self.inner.parses(node, made, said) ==> item(*node, made) && said.len()
                    == 0,
        ensures
            sequence_kind(root, kind, item),
            notes.len() == 0,
    {
        if root.yaml is Sequence {
            let items = root.yaml->Sequence_0@;
            let entries = kind->Value_0@;
            let item_notes = choose|item_notes: Seq<Seq<AnnotationView>>| #[trigger]
                self.items_parsed(items, entries, item_notes) && notes == joined(item_notes);
            assert forall|i: int| 0 <= i < items.len() implies (#[trigger] item_notes[i]).len()
                == 0 by {
                let entry = entries[i];
                assert(self.inner.parses(&items[i], entry.kind, item_notes[i]));
            }
            lemma_joined_empty(item_notes);
            assert forall|i: int| 0 <= i < items.len() implies {
                &&& (#[trigger] entries[i]).location == items[i].pointer()
                &&& item(items[i], entries[i].kind)
            } by {
                assert(self.inner.parses(&items[i], entries[i].kind, item_notes[i]));
            }
        }
    }
}

impl<K, V, KP: Parser<K>, VP: Parser<V>> MapParser<K, V, KP, VP> {
    /// A mapping parser over parsers that report nothing reports nothing, and
    /// what it yields is the mapping of what those parsers yield.
    pub proof fn lemma_map_quiet(
        self,
        root: &YamlNode,
        kind: PossumNodeKind<PossumMap<K, V>>,
        notes: Seq<AnnotationView>,
        key: spec_fn(YamlNode, PossumNodeKind<K>) -> bool,
        value: spec_fn(YamlNode, PossumNodeKind<V>) -> bool,
    )
        requires
            self.parses(root, kind, notes),
            forall|node: &YamlNode, made: PossumNodeKind<K>, said: Seq<AnnotationView>|
                #[trigger] self.keys.parses(node, made, said) ==> key(*node, made) && said.len()
                    == 0,
            forall|node: &YamlNode, made: PossumNodeKind<V>, said: Seq<AnnotationView>|
                #[trigger] self.values.parses(node, made, said) ==> value(*node, made)
                    && said.len() == 0,
        ensures
            mapping_kind(root, kind, key, value),
            notes.len() == 0,
    {
        if root.yaml is Mapping {
            let pairs = root.yaml->Mapping_0@;
            let entries = kind->Value_0@;
            let (key_notes, value_notes) = choose|
                key_notes: Seq<Seq<AnnotationView>>,
                value_notes: Seq<Seq<AnnotationView>>,
            | #[trigger]
                self.pairs_parsed(pairs, entries, key_notes, value_notes) && notes == joined(
                    pair_notes(key_notes, value_notes),
                );
            let parts = pair_notes(key_notes, value_notes);
            assert forall|i: int| 0 <= i < parts.len() implies (#[trigger] parts[i]).len()
                == 0 by {
                let entry = entries[i];
                assert(self.keys.parses(&pairs[i].0, entry.0.kind, key_notes[i]));
                assert(self.values.parses(&pairs[i].1, entry.1.kind, value_notes[i]));
            }
            lemma_joined_empty(parts);
            assert forall|i: int| 0 <= i < pairs.len() implies {
                &&& (#[trigger] entries[i]).0.location == pairs[i].0.pointer()
                &&& entries[i].1.location == pairs[i].1.pointer()
                &&& key(pairs[i].0, entries[i].0.kind)
                &&& value(pairs[i].1, entries[i].1.kind)
            } by {
                assert(self.keys.parses(&pairs[i].0, entries[i].0.kind, key_notes[i]));
                assert(self.values.parses(&pairs[i].1, entries[i].1.kind, value_notes[i]));
            }
        }
    }
}

/// Parses a mapping from strings to strings.
pub struct StringMapParser(pub MapParser<String, String, StringParser, StringParser>);

impl StringMapParser {
    pub fn new() -> (made: StringMapParser)
        ensures
            made.0.keys == StringParser,
            made.0.values == StringParser,
    {
        StringMapParser(MapParser::new(StringParser, StringParser))
    }
}

/// `kind` is what a mapping from strings to strings is read as from `root`:
/// one entry for every pair, key and value each read as a string and put
/// where it stands in the source.
pub open spec fn string_map_kind(
    root: &YamlNode,
    kind: PossumNodeKind<PossumMap<String, String>>,
) -> bool {
    match root.yaml {
        Yaml::Mapping(pairs) => {
            &&& kind matches PossumNodeKind::Value(map)
            &&& map@.len() == pairs@.len()
            &&& forall|i: int|
                0 <= i < pairs@.len() ==> {
                    &&& (#[trigger] map@[i]).0.location == pairs@[i].0.pointer()
                    &&& map@[i].1.location == pairs@[i].1.pointer()
                    &&& string_kind(pairs@[i].0.yaml, map@[i].0.kind)
                    &&& string_kind(pairs@[i].1.yaml, map@[i].1.kind)
                }
        },
        _ => invalid_for(kind, YamlKind::Mapping, root.yaml.kind()),
    }
}

impl Parser<PossumMap<String, String>> for StringMapParser {
    open spec fn ready(&self) -> bool {
        true
    }

    open spec fn parses(
        &self,
        root: &YamlNode,
        kind: PossumNodeKind<PossumMap<String, String>>,
        notes: Seq<AnnotationView>,
    ) -> bool {
        string_map_kind(root, kind) && notes.len() == 0
    }

    fn parse_node(&self, root: &YamlNode, annotations: &mut Annotations) -> (kind: PossumNodeKind<
        PossumMap<String, String>,
    >) {
        assert(self.0.ready());
        let kind = self.0.parse_node(root, annotations);
        proof {
            let notes = annotations@.skip(old(annotations)@.len() as int);
            if root.yaml is Mapping {
                let (key_notes, value_notes) = choose|
                    key_notes: Seq<Seq<AnnotationView>>,
                    value_notes: Seq<Seq<AnnotationView>>,
                | #[trigger]
                    self.0.pairs_parsed(
                        root.yaml->Mapping_0@,
                        kind->Value_0@,
                        key_notes,
                        value_notes,
                    ) && notes == joined(pair_notes(key_notes, value_notes));
                let parts = pair_notes(key_notes, value_notes);
                assert forall|i: int| 0 <= i < parts.len() implies (#[trigger] parts[i]).len()
                    == 0 by {
                    let entry = kind->Value_0@[i];
                    assert(key_notes[i].len() == 0 && value_notes[i].len() == 0);
                }
                lemma_joined_empty(parts);
            }
        }
        kind
    }
}

/// Parses a sequence item by item with `inner`, each item put at the position
/// of the node it came from.
#[verifier::reject_recursive_types(T)]
#[verifier::reject_recursive_types(P)]
pub struct SeqParser<T, P: Parser<T>> {
    pub inner: P,
    pub _t: PhantomData<T>,
}

impl<T, P: Parser<T>> SeqParser<T, P> {
    pub fn new(inner: P) -> (made: SeqParser<T, P>)
        ensures
            made.inner == inner,
    {
        SeqParser { inner, _t: PhantomData }
    }

    /// Whether `entries` is what `inner` may make of `items`, entry `i` from
    /// item `i`, while item `i` reports `item_notes[i]`.
    pub open spec fn items_parsed(
        &self,
        items: Seq<YamlNode>,
        entries: Seq<PossumNode<T>>,
        item_notes: Seq<Seq<AnnotationView>>,
    ) -> bool {
        &&& entries.len() == items.len()
        &&& item_notes.len() == items.len()
        &&& forall|i: int|
            0 <= i < items.len() ==> {
                &&& (#[trigger] entries[i]).location == items[i].pointer()
                &&& self.inner.parses(&items[i], entries[i].kind, item_notes[i])
            }
    }
}

impl<T, P: Parser<T>> Parser<PossumSeq<T>> for SeqParser<T, P> {
    open spec fn ready(&self) -> bool {
        self.inner.ready()
    }

    open spec fn parses(
        &self,
        root: &YamlNode,
        kind: PossumNodeKind<PossumSeq<T>>,
        notes: Seq<AnnotationView>,
    ) -> bool {
        match root.yaml {
            Yaml::Sequence(items) => {
                &&& kind matches PossumNodeKind::Value(seq)
                &&& exists|item_notes: Seq<Seq<AnnotationView>>| #[trigger]
                    self.items_parsed(items@, seq@, item_notes) && notes == joined(item_notes)
            },
            _ => invalid_for(kind, YamlKind::Sequence, root.yaml.kind()) && notes.len() == 0,
        }
    }

    fn parse_node(&self, root: &YamlNode, annotations: &mut Annotations) -> (kind: PossumNodeKind<
        PossumSeq<T>,
    >) {
        match root.extract_seq() {
            Err(u) => PossumNodeKind::Invalid(u.to_string()),
            Ok(items) => {
                let ghost before = annotations@;
                let ghost mut item_notes: Seq<Seq<AnnotationView>> = Seq::empty();
                let mut seq: PossumSeq<T> = PossumSeq::empty();
                let mut i: usize = 0;
                proof {
                    assert(annotations@ =~= before + joined(item_notes));
                }
                while i < items.len()
                    invariant
                        self.ready(),
                        0 <= i <= items@.len(),
                        seq@.len() == i,
                        item_notes.len() == i,
                        annotations@ == before + joined(item_notes),
                        forall|j: int|
                            0 <= j < i ==> {
                                &&& (#[trigger] seq@[j]).location == items@[j].pointer()
                                &&& self.inner.parses(&items@[j], seq@[j].kind, item_notes[j])
                            },
                    decreases items@.len() - i,
                {
                    let ghost start = annotations@;
                    let elm = &items[i];
                    let parsed = self.inner.parse_node(elm, annotations);
                    proof {
                        let part = annotations@.skip(start.len() as int);
                        lemma_grown(start, annotations@);
                        lemma_joined_push(item_notes, part);
                        item_notes = item_notes.push(part);
                        assert(annotations@ =~= before + joined(item_notes));
                    }
                    seq.push(parsed.at(elm));
                    i += 1;
                }
                let ghost entries = seq@;
                let kind = PossumNodeKind::Value(seq);
                proof {
                    assert(annotations@.skip(before.len() as int) =~= joined(item_notes));
                    assert(kind->Value_0@ == entries);
                    assert(self.items_parsed(root.yaml->Sequence_0@, kind->Value_0@, item_notes));
                    assert(self.parses(root, kind, annotations@.skip(before.len() as int)));
                }
                kind
            },
        }
    }
}

} // verus!
