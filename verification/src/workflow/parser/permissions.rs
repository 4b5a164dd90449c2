//! Permissions: `read-all` or `write-all` for everything, or a mapping from
//! scope to grant.
use super::{invalid_with, none_of, unexpected};
use crate::document::annotation::{joined, lemma_added_since, lemma_grown, lemma_joined_push};
use crate::document::{AnnotationView, Annotations, AsDocumentPointer};
use crate::scavenge::ast::{PossumMap, PossumNode, PossumNodeKind};
use crate::scavenge::extraction::{mismatch_note, mismatch_text, ExpectedView, Extract};
use crate::scavenge::parser::Parser;
use crate::scavenge::yaml::{Yaml, YamlKind, YamlNode};
use crate::text::{lowercase, lowercased, same_text};
use crate::workflow::{Grant, Permission};
use vstd::prelude::*;

verus! {

/// Reads the permissions of a workflow or a job.
pub struct PermissionParser;

impl PermissionParser {
    pub fn new() -> (parser: PermissionParser)
        ensures
            parser == PermissionParser,
    {
        PermissionParser
    }
}

/// `kind` is the grant that the lower-cased text `lower` names, or an
/// `Invalid` that quotes it.
pub open spec fn individual_grant(lower: Seq<char>, kind: PossumNodeKind<Grant>) -> bool {
    if lower == "read"@ {
        kind == PossumNodeKind::Value(Grant::Read)
    } else if lower == "write"@ {
        kind == PossumNodeKind::Value(Grant::Write)
    } else if lower == "none"@ {
        kind == PossumNodeKind::Value(Grant::Deny)
    } else {
        invalid_with(kind, "Expected read, write or none but found "@ + lower)
    }
}

/// Reads one grant, whatever its case.
pub fn parse_individual_grant(grant: &str) -> (kind: PossumNodeKind<Grant>)
    ensures
        individual_grant(lowercased(grant@), kind),
{
    let lower = lowercase(grant);
    grant_named(lower.as_str())
}

/// Reads one grant from its name in lower case.
pub fn grant_named(lower: &str) -> (kind: PossumNodeKind<Grant>)
    ensures
        individual_grant(lower@, kind),
{
    if same_text(lower, "read") {
        PossumNodeKind::Value(Grant::Read)
    } else if same_text(lower, "write") {
        PossumNodeKind::Value(Grant::Write)
    } else if same_text(lower, "none") {
        PossumNodeKind::Value(Grant::Deny)
    } else {
        PossumNodeKind::Invalid(
            String::from_str("Expected read, write or none but found ").concat(lower),
        )
    }
}

/// `kind` is the grant for everything that the lower-cased text `lower`
/// names, or an `Invalid` that quotes it.
pub open spec fn global_grant(lower: Seq<char>, kind: PossumNodeKind<Permission>) -> bool {
    if lower == "read-all"@ {
        kind == PossumNodeKind::Value(Permission::GlobalGrant(Grant::Read))
    } else if lower == "write-all"@ {
        kind == PossumNodeKind::Value(Permission::GlobalGrant(Grant::Write))
    } else {
        invalid_with(kind, "Expected read-all or write-all, but found "@ + lower)
    }
}

/// Reads the grant for everything from its name in lower case.
pub fn global_grant_named(lower: &str) -> (kind: PossumNodeKind<Permission>)
    ensures
        global_grant(lower@, kind),
{
    if same_text(lower, "read-all") {
        PossumNodeKind::Value(Permission::GlobalGrant(Grant::Read))
    } else if same_text(lower, "write-all") {
        PossumNodeKind::Value(Permission::GlobalGrant(Grant::Write))
    } else {
        PossumNodeKind::Invalid(
            String::from_str("Expected read-all or write-all, but found ").concat(lower),
        )
    }
}

/// `kind` is what the value of a scope is read as: the grant that a string
/// names, or an `Invalid` for what is no string.
pub open spec fn scope_grant(value: YamlNode, kind: PossumNodeKind<Grant>) -> bool {
    match value.yaml {
        Yaml::Str(grant) => individual_grant(lowercased(grant@), kind),
        _ => invalid_with(
            kind,
            mismatch_text(ExpectedView::Only(YamlKind::Str), value.yaml.kind()),
        ),
    }
}

/// Whether taking in `pair` may turn the grants `before` into `after` while
/// reporting `notes`. A pair whose key is a string adds one entry: the key as
/// written at the key's place, the grant at the value's place. Any other pair
/// is skipped and its key reported.
pub open spec fn grant_added(
    pair: (YamlNode, YamlNode),
    before: Seq<(PossumNode<String>, PossumNode<Grant>)>,
    after: Seq<(PossumNode<String>, PossumNode<Grant>)>,
    notes: Seq<AnnotationView>,
) -> bool {
    match pair.0.yaml {
        Yaml::Str(key) => {
            &&& notes.len() == 0
            &&& after.len() == before.len() + 1
            &&& after.drop_last() == before
            &&& after.last().0.location == pair.0.pointer()
            &&& after.last().0.kind matches PossumNodeKind::Value(scope)
            &&& scope@ == key@
            &&& after.last().1.location == pair.1.pointer()
            &&& scope_grant(pair.1, after.last().1.kind)
        },
        _ => after == before && notes == seq![
            mismatch_note(ExpectedView::Only(YamlKind::Str), pair.0.yaml.kind(), pair.0),
        ],
    }
}

/// Whether the grants may pass through `states` while `pairs` are taken in
/// one by one, reporting `parts[i]` on pair `i`.
pub open spec fn grants_added(
    pairs: Seq<(YamlNode, YamlNode)>,
    states: Seq<Seq<(PossumNode<String>, PossumNode<Grant>)>>,
    parts: Seq<Seq<AnnotationView>>,
) -> bool {
    &&& states.len() == pairs.len() + 1
    &&& parts.len() == pairs.len()
    &&& forall|i: int|
        0 <= i < pairs.len() ==> grant_added(
            pairs[i],
            #[trigger] states[i],
            states[i + 1],
            parts[i],
        )
}

/// Whether `kind` with `notes` is what permissions may be read as from
/// `root`.
pub open spec fn permission_parsed(
    root: &YamlNode,
    kind: PossumNodeKind<Permission>,
    notes: Seq<AnnotationView>,
) -> bool {
    match root.yaml {
        Yaml::Str(all) => global_grant(lowercased(all@), kind) && notes.len() == 0,
        Yaml::Mapping(each) => {
            &&& kind matches PossumNodeKind::Value(Permission::IndividualGrants(perms))
            &&& exists|
                states: Seq<Seq<(PossumNode<String>, PossumNode<Grant>)>>,
                parts: Seq<Seq<AnnotationView>>,
            | #[trigger]
                grants_added(each@, states, parts) && states[0].len() == 0 && states.last()
                    == perms@ && notes == joined(parts)
        },
        _ => none_of(kind, seq![YamlKind::Str, YamlKind::Mapping], root) && notes.len() == 0,
    }
}

impl Parser<Permission> for PermissionParser {
    open spec fn ready(&self) -> bool {
        true
    }

    open spec fn parses(
        &self,
        root: &YamlNode,
        kind: PossumNodeKind<Permission>,
        notes: Seq<AnnotationView>,
    ) -> bool {
        permission_parsed(root, kind, notes)
    }

    fn parse_node(&self, root: &YamlNode, annotations: &mut Annotations) -> (kind: PossumNodeKind<
        Permission,
    >) {
        match root.yaml() {
            Yaml::Str(all) => {
                let lower = lowercase(all.as_str());
                global_grant_named(lower.as_str())
            },
            Yaml::Mapping(each) => {
                let ghost before = annotations@;
                let mut perms: PossumMap<String, Grant> = PossumMap::empty();
                let ghost mut states: Seq<Seq<(PossumNode<String>, PossumNode<Grant>)>> = seq![
                    perms@,
                ];
                let ghost mut parts: Seq<Seq<AnnotationView>> = Seq::empty();
                let mut i: usize = 0;
                proof {
                    assert(annotations@ =~= before + joined(parts));
                }
                while i < each.len()
                    invariant
                        0 <= i <= each@.len(),
                        states.len() == i + 1,
                        parts.len() == i,
                        states[0].len() == 0,
                        states[i as int] == perms@,
                        annotations@ == before + joined(parts),
                        forall|j: int|
                            0 <= j < i ==> grant_added(
                                each@[j],
                                #[trigger] states[j],
                                states[j + 1],
                                parts[j],
                            ),
                    decreases each@.len() - i,
                {
                    let ghost earlier = annotations@;
                    let ghost held = perms@;
                    let key = &each[i].0;
                    let value = &each[i].1;
                    match key.extract_str() {
                        Err(u) => {
                            annotations.add(u.at(key));
                            proof {
                                assert(annotations@.skip(earlier.len() as int) =~= seq![
                                    mismatch_note(
                                        ExpectedView::Only(YamlKind::Str),
                                        key.yaml.kind(),
                                        *key,
                                    ),
                                ]);
                            }
                        },
                        Ok(k) => {
                            let grant: PossumNodeKind<Grant> = match value.extract_str() {
                                Err(u) => PossumNodeKind::Invalid(u.to_string()),
                                Ok(g) => parse_individual_grant(g),
                            };
                            perms.insert(
                                PossumNodeKind::Value(String::from_str(k)).at(key),
                                grant.at(value),
                            );
                            proof {
                                assert(perms@.drop_last() =~= held);
                                assert(annotations@.skip(earlier.len() as int) =~= Seq::empty());
                            }
                        },
                    }
                    proof {
                        let part = annotations@.skip(earlier.len() as int);
                        lemma_grown(earlier, annotations@);
                        lemma_joined_push(parts, part);
                        assert(grant_added(each@[i as int], states[i as int], perms@, part));
                        states = states.push(perms@);
                        parts = parts.push(part);
                        assert(annotations@ =~= before + joined(parts));
                    }
                    i += 1;
                }
                let ghost entries = perms@;
                let kind = PossumNodeKind::Value(Permission::IndividualGrants(perms));
                proof {
                    lemma_added_since(before, joined(parts));
                    assert(states.last() == entries);
                    assert(grants_added(each@, states, parts));
                    assert(permission_parsed(root, kind, joined(parts)));
                }
                kind
            },
            _ => unexpected(vec![YamlKind::Str, YamlKind::Mapping], root),
        }
    }
}

} // verus!
