//! Triggers: the `on` of a workflow, written as one event name, as a list of
//! names, or as a mapping from names to what narrows each event.
use super::{invalid_with, none_of, unexpected, EventParser};
use crate::document::annotation::joined;
use crate::document::{AnnotationView, Annotations, AsDocumentPointer};
use crate::scavenge::ast::{PossumNode, PossumNodeKind, PossumSeq};
use crate::scavenge::extraction::Extract;
use crate::scavenge::parser::Parser;
use crate::scavenge::parsers::{
    invalid_for, mapped_by, pair_notes, FlatMapParser, MapParser, OrParser, SeqParser,
    StringParser, TransformParser,
};
use crate::scavenge::yaml::{Yaml, YamlKind, YamlNode};
use crate::workflow::on::{event_named, unknown_event_text, Event, EventKind, Trigger};
use std::marker::PhantomData;
use vstd::prelude::*;

verus! {

/// Reads the trigger of a workflow.
pub struct OnParser;

impl OnParser {
    pub fn new() -> (parser: OnParser)
        ensures
            parser == OnParser,
    {
        OnParser
    }
}

/// Reads the name of an event.
pub struct EventKindParser;

/// Reads one event name as a trigger.
pub struct OnStringParser;

/// Reads a list of event names as a trigger.
pub struct OnArrayParser;

/// Reads a mapping from event names to what narrows each event as a trigger.
pub struct OnMapParser;

/// `kind` is the event that the text `name` names, or an `Invalid` that
/// quotes it.
pub open spec fn event_for(name: Seq<char>, kind: PossumNodeKind<EventKind>) -> bool {
    match event_named(name) {
        Some(event) => kind == PossumNodeKind::Value(event),
        None => invalid_with(kind, unknown_event_text(name)),
    }
}

/// `kind` is what the name of an event is read as from `yaml`.
pub open spec fn event_kind_kind(yaml: Yaml, kind: PossumNodeKind<EventKind>) -> bool {
    match yaml {
        Yaml::Str(text) => event_for(text@, kind),
        _ => invalid_for(kind, YamlKind::Str, yaml.kind()),
    }
}

/// Looks an event up by its name.
fn event_of(s: String) -> (kind: PossumNodeKind<EventKind>)
    ensures
        event_for(s@, kind),
{
    match EventKind::fromstr(s.as_str()) {
        Ok(ek) => PossumNodeKind::Value(ek),
        Err(bad) => PossumNodeKind::Invalid(bad.to_string()),
    }
}

impl Parser<EventKind> for EventKindParser {
    open spec fn ready(&self) -> bool {
        true
    }

    open spec fn parses(
        &self,
        root: &YamlNode,
        kind: PossumNodeKind<EventKind>,
        notes: Seq<AnnotationView>,
    ) -> bool {
        event_kind_kind(root.yaml, kind) && notes.len() == 0
    }

    fn parse_node(&self, root: &YamlNode, annotations: &mut Annotations) -> (kind: PossumNodeKind<
        EventKind,
    >) {
        let parser = FlatMapParser::new(StringParser, event_of);
        proof {
            parser.lemma_flat_map(root, PossumNodeKind::Empty, Seq::empty());
        }
        let kind = parser.parse_node(root, annotations);
        proof {
            let notes = annotations@.skip(old(annotations)@.len() as int);
            parser.lemma_flat_map(root, kind, notes);
        }
        kind
    }
}

/// The event named by `node`, which nothing narrows: the name as it is read
/// and an `Empty` body, both at the place of `node`.
pub open spec fn bare_event(node: YamlNode, entry: (PossumNode<EventKind>, PossumNode<Event>)) -> bool {
    &&& entry.0.location == node.pointer()
    &&& event_kind_kind(node.yaml, entry.0.kind)
    &&& entry.1 == (PossumNode { location: node.pointer(), kind: PossumNodeKind::<Event>::Empty })
}

/// `kind` is the trigger that holds the one event that `root` names, which
/// nothing narrows. A name that belongs to no event is the `Invalid` name of
/// that entry.
pub open spec fn one_event(root: &YamlNode, kind: PossumNodeKind<Trigger>) -> bool {
    &&& kind matches PossumNodeKind::Value(trigger)
    &&& trigger@.len() == 1
    &&& bare_event(*root, trigger@[0])
}

/// `kind` is what one event name is read as from `root`: a string is the
/// trigger of that one event, and a node that is no string is `Invalid`.
pub open spec fn named_event(root: &YamlNode, kind: PossumNodeKind<Trigger>) -> bool {
    match root.yaml {
        Yaml::Str(_) => one_event(root, kind),
        _ => invalid_for(kind, YamlKind::Str, root.yaml.kind()),
    }
}

impl Parser<Trigger> for OnStringParser {
    open spec fn ready(&self) -> bool {
        true
    }

    open spec fn parses(
        &self,
        root: &YamlNode,
        kind: PossumNodeKind<Trigger>,
        notes: Seq<AnnotationView>,
    ) -> bool {
        named_event(root, kind) && notes.len() == 0
    }

    fn parse_node(&self, root: &YamlNode, annotations: &mut Annotations) -> (kind: PossumNodeKind<
        Trigger,
    >) {
        match root.extract_str() {
            Err(u) => PossumNodeKind::Invalid(u.to_string()),
            Ok(_) => {
                let name = EventKindParser.parse_node(root, annotations);
                PossumNodeKind::Value(Trigger::from_name(name.at(root)))
            },
        }
    }
}

/// `kind` is the trigger that holds the events that the items of `root`
/// name, in their order and none of them narrowed; a node that is no
/// sequence is `Invalid`.
pub open spec fn listed_events(root: &YamlNode, kind: PossumNodeKind<Trigger>) -> bool {
    match root.yaml {
        Yaml::Sequence(items) => {
            &&& kind matches PossumNodeKind::Value(trigger)
            &&& trigger@.len() == items@.len()
            &&& forall|i: int| 0 <= i < items@.len() ==> bare_event(items@[i], #[trigger] trigger@[i])
        },
        _ => invalid_for(kind, YamlKind::Sequence, root.yaml.kind()),
    }
}

impl Parser<Trigger> for OnArrayParser {
    open spec fn ready(&self) -> bool {
        true
    }

    open spec fn parses(
        &self,
        root: &YamlNode,
        kind: PossumNodeKind<Trigger>,
        notes: Seq<AnnotationView>,
    ) -> bool {
        listed_events(root, kind) && notes.len() == 0
    }

    fn parse_node(&self, root: &YamlNode, annotations: &mut Annotations) -> (kind: PossumNodeKind<
        Trigger,
    >) {
        let parser = TransformParser::new(SeqParser::new(EventKindParser), Trigger::from_names);
        proof {
            parser.lemma_transform(root, PossumNodeKind::Empty, Seq::empty());
        }
        let kind = parser.parse_node(root, annotations);
        proof {
            let notes = annotations@.skip(old(annotations)@.len() as int);
            parser.lemma_transform(root, kind, notes);
            let names = choose|names: PossumNodeKind<PossumSeq<EventKind>>| #[trigger]
                parser.parser.parses(root, names, notes) && mapped_by(
                    parser.transform,
                    names,
                    kind,
                );
            parser.parser.lemma_seq_quiet(
                root,
                names,
                notes,
                |node: YamlNode, made: PossumNodeKind<EventKind>|
                    event_kind_kind(node.yaml, made),
            );
            if root.yaml is Sequence {
                let items = root.yaml->Sequence_0@;
                let trigger = kind->Value_0;
                assert forall|i: int| 0 <= i < items.len() implies bare_event(
                    items[i],
                    #[trigger] trigger@[i],
                ) by {
                    let name = names->Value_0@[i];
                }
            }
        }
        kind
    }
}

/// The parser of the pairs of a trigger that is written as a mapping.
pub open spec fn events_parser() -> MapParser<EventKind, Event, EventKindParser, EventParser> {
    MapParser { keys: EventKindParser, values: EventParser, _k: PhantomData, _v: PhantomData }
}

/// Whether `kind` with `notes` is what a mapping may be read as: the trigger
/// that holds its pairs as a mapping parser reads them, each name with what
/// narrows it; a node that is no mapping is `Invalid`.
pub open spec fn described_events(
    root: &YamlNode,
    kind: PossumNodeKind<Trigger>,
    notes: Seq<AnnotationView>,
) -> bool {
    match kind {
        PossumNodeKind::Value(trigger) => events_parser().parses(
            root,
            PossumNodeKind::Value(trigger.0),
            notes,
        ),
        PossumNodeKind::Invalid(message) => events_parser().parses(
            root,
            PossumNodeKind::Invalid(message),
            notes,
        ),
        _ => false,
    }
}

impl Parser<Trigger> for OnMapParser {
    open spec fn ready(&self) -> bool {
        true
    }

    open spec fn parses(
        &self,
        root: &YamlNode,
        kind: PossumNodeKind<Trigger>,
        notes: Seq<AnnotationView>,
    ) -> bool {
        described_events(root, kind, notes)
    }

    fn parse_node(&self, root: &YamlNode, annotations: &mut Annotations) -> (kind: PossumNodeKind<
        Trigger,
    >) {
        let parser = MapParser::new(EventKindParser, EventParser::new());
        let events = parser.parse_node(root, annotations);
        proof {
            let notes = annotations@.skip(old(annotations)@.len() as int);
            if root.yaml is Mapping {
                let pairs = root.yaml->Mapping_0@;
                let (key_notes, value_notes) = choose|
                    key_notes: Seq<Seq<AnnotationView>>,
                    value_notes: Seq<Seq<AnnotationView>>,
                | #[trigger]
                    parser.pairs_parsed(pairs, events->Value_0@, key_notes, value_notes) && notes
                        == joined(
                        pair_notes(key_notes, value_notes),
                    );
                assert(events_parser().pairs_parsed(
                    pairs,
                    events->Value_0@,
                    key_notes,
                    value_notes,
                ));
            }
            assert(events_parser().parses(root, events, notes));
        }
        let kind = match events {
            PossumNodeKind::Value(map) => PossumNodeKind::Value(Trigger::from_events(map)),
            PossumNodeKind::Expr(s) => PossumNodeKind::Expr(s),
            PossumNodeKind::Invalid(s) => PossumNodeKind::Invalid(s),
            PossumNodeKind::Empty => PossumNodeKind::Empty,
        };
        kind
    }
}

/// Whether `kind` with `notes` is what a trigger may be read as from `root`,
/// by the shape of `root`: a string names one event, a sequence lists
/// events, a mapping gives every event with what narrows it, and any other
/// node is `Invalid`.
pub open spec fn trigger_parsed(
    root: &YamlNode,
    kind: PossumNodeKind<Trigger>,
    notes: Seq<AnnotationView>,
) -> bool {
    match root.yaml {
        Yaml::Str(_) => one_event(root, kind) && notes.len() == 0,
        Yaml::Sequence(_) => listed_events(root, kind) && notes.len() == 0,
        Yaml::Mapping(_) => described_events(root, kind, notes),
        _ => none_of(kind, seq![YamlKind::Str, YamlKind::Sequence, YamlKind::Mapping], root)
            && notes.len() == 0,
    }
}

/// A trigger that is written as a name, as a list or as a mapping is read as
/// a value, whatever the names in it are: a name that belongs to no event is
/// `Invalid` inside the trigger, and the trigger itself is not.
pub proof fn lemma_trigger_in_any_shape_is_a_value(
    root: &YamlNode,
    kind: PossumNodeKind<Trigger>,
    notes: Seq<AnnotationView>,
)
    requires
        trigger_parsed(root, kind, notes),
        root.yaml is Str || root.yaml is Sequence || root.yaml is Mapping,
    ensures
        kind is Value,
{
}

impl Parser<Trigger> for OnParser {
    open spec fn ready(&self) -> bool {
        true
    }

    open spec fn parses(
        &self,
        root: &YamlNode,
        kind: PossumNodeKind<Trigger>,
        notes: Seq<AnnotationView>,
    ) -> bool {
        trigger_parsed(root, kind, notes)
    }

    fn parse_node(&self, root: &YamlNode, annotations: &mut Annotations) -> (kind: PossumNodeKind<
        Trigger,
    >) {
        let no_list = |r: &YamlNode| -> (k: PossumNodeKind<Trigger>)
            ensures
                none_of(k, seq![YamlKind::Str, YamlKind::Sequence, YamlKind::Mapping], r),
            { unexpected(vec![YamlKind::Str, YamlKind::Sequence, YamlKind::Mapping], r) };
        let no_name = |r: &YamlNode| -> (k: PossumNodeKind<Trigger>)
            ensures
                none_of(k, seq![YamlKind::Str, YamlKind::Sequence, YamlKind::Mapping], r),
            { unexpected(vec![YamlKind::Str, YamlKind::Sequence, YamlKind::Mapping], r) };
        let rhs = OrParser::new(OnArrayParser, OnMapParser, no_list);
        proof {
            rhs.lemma_or(root, PossumNodeKind::Empty, Seq::empty());
        }
        let parser = OrParser::new(OnStringParser, rhs, no_name);
        proof {
            parser.lemma_or(root, PossumNodeKind::Empty, Seq::empty());
        }
        let kind = parser.parse_node(root, annotations);
        proof {
            let notes = annotations@.skip(old(annotations)@.len() as int);
            parser.lemma_or(root, kind, notes);
            let (name, name_notes, other, other_notes) = choose|
                name: PossumNodeKind<Trigger>,
                name_notes: Seq<AnnotationView>,
                other: PossumNodeKind<Trigger>,
                other_notes: Seq<AnnotationView>,
            | #[trigger] parser.attempts(root, name, name_notes, other, other_notes, kind, notes);
            if name is Invalid {
                parser.rhs.lemma_or(root, other, other_notes);
                let (list, list_notes, map, map_notes) = choose|
                    list: PossumNodeKind<Trigger>,
                    list_notes: Seq<AnnotationView>,
                    map: PossumNodeKind<Trigger>,
                    map_notes: Seq<AnnotationView>,
                | #[trigger]
                    parser.rhs.attempts(
                        root,
                        list,
                        list_notes,
                        map,
                        map_notes,
                        other,
                        other_notes,
                    );
                if list is Invalid {
                    assert(other_notes =~= map_notes);
                }
                assert(notes =~= other_notes);
            }
            assert(self.parses(root, kind, notes));
        }
        kind
    }
}

} // verus!
