//! Alternation: fields that may be written in more than one shape.
use super::concrete::ExprParser;
use crate::document::annotation::lemma_grown_twice;
use crate::document::{AnnotationView, Annotations};
use crate::scavenge::ast::PossumNodeKind;
use crate::scavenge::parser::Parser;
use crate::scavenge::yaml::YamlNode;
use std::marker::PhantomData;
use vstd::prelude::*;

verus! {

/// Tries `lhs`; where that is `Invalid`, tries `rhs`; where that is `Invalid`
/// too, yields what `default` makes of the node. A parser that did not fail
/// ends the attempt: what comes after it is not run.
#[verifier::reject_recursive_types(T)]
#[verifier::reject_recursive_types(LHS)]
#[verifier::reject_recursive_types(RHS)]
#[verifier::reject_recursive_types(D)]
pub struct OrParser<T, LHS: Parser<T>, RHS: Parser<T>, D: Fn(&YamlNode) -> PossumNodeKind<T>> {
    pub lhs: LHS,
    pub rhs: RHS,
    pub default: D,
    pub _t: PhantomData<T>,
}

impl<T, LHS: Parser<T>, RHS: Parser<T>, D: Fn(&YamlNode) -> PossumNodeKind<T>> OrParser<
    T,
    LHS,
    RHS,
    D,
> {
    pub fn new(lhs: LHS, rhs: RHS, default: D) -> (made: OrParser<T, LHS, RHS, D>)
        ensures
            made.lhs == lhs,
            made.rhs == rhs,
            made.default == default,
    {
        OrParser { lhs, rhs, default, _t: PhantomData }
    }

    /// Whether the attempt may run like this: `lhs` yields `first` and
    /// reports `first_notes`; if `first` is `Invalid`, `rhs` yields `second`
    /// and reports `second_notes`; the outcome is `kind` with `notes`.
    pub open spec fn attempts(
        &self,
        root: &YamlNode,
        first: PossumNodeKind<T>,
        first_notes: Seq<AnnotationView>,
        second: PossumNodeKind<T>,
        second_notes: Seq<AnnotationView>,
        kind: PossumNodeKind<T>,
        notes: Seq<AnnotationView>,
    ) -> bool {
        &&& self.lhs.parses(root, first, first_notes)
        &&& if !(first is Invalid) {
            kind == first && notes == first_notes
        } else {
            &&& self.rhs.parses(root, second, second_notes)
            &&& notes == first_notes + second_notes
            &&& if !(second is Invalid) {
                kind == second
            } else {
                call_ensures(self.default, (root,), kind)
            }
        }
    }
}

impl<T, LHS: Parser<T>, RHS: Parser<T>, D: Fn(&YamlNode) -> PossumNodeKind<T>> Parser<
    T,
> for OrParser<T, LHS, RHS, D> {
    open spec fn ready(&self) -> bool {
        &&& self.lhs.ready()
        &&& self.rhs.ready()
        &&& forall|root: &YamlNode| call_requires(self.default, (root,))
    }

    open spec fn parses(
        &self,
        root: &YamlNode,
        kind: PossumNodeKind<T>,
        notes: Seq<AnnotationView>,
    ) -> bool {
        exists|
            first: PossumNodeKind<T>,
            first_notes: Seq<AnnotationView>,
            second: PossumNodeKind<T>,
            second_notes: Seq<AnnotationView>,
        | #[trigger]
            self.attempts(root, first, first_notes, second, second_notes, kind, notes)
    }

    fn parse_node(&self, root: &YamlNode, annotations: &mut Annotations) -> (kind: PossumNodeKind<
        T,
    >) {
        let ghost before = annotations@;
        let first = self.lhs.parse_node(root, annotations);
        let ghost middle = annotations@;
        match first {
            PossumNodeKind::Invalid(message) => {
                let second = self.rhs.parse_node(root, annotations);
                proof {
                    lemma_grown_twice(before, middle, annotations@);
                }
                match second {
                    PossumNodeKind::Invalid(other) => {
                        let kind = (self.default)(root);
                        assert(self.attempts(
                            root,
                            PossumNodeKind::Invalid(message),
                            middle.skip(before.len() as int),
                            PossumNodeKind::Invalid(other),
                            annotations@.skip(middle.len() as int),
                            kind,
                            annotations@.skip(before.len() as int),
                        ));
                        kind
                    },
                    other => {
                        assert(self.attempts(
                            root,
                            PossumNodeKind::Invalid(message),
                            middle.skip(before.len() as int),
                            other,
                            annotations@.skip(middle.len() as int),
                            other,
                            annotations@.skip(before.len() as int),
                        ));
                        other
                    },
                }
            },
            other => {
                assert(self.attempts(
                    root,
                    other,
                    middle.skip(before.len() as int),
                    other,
                    middle.skip(before.len() as int),
                    other,
                    middle.skip(before.len() as int),
                ));
                other
            },
        }
    }
}

impl<T, LHS: Parser<T>, RHS: Parser<T>, D: Fn(&YamlNode) -> PossumNodeKind<T>> OrParser<
    T,
    LHS,
    RHS,
    D,
> {
    /// What it means for an alternation to be ready and to parse, spelled out
    /// for any parsers and last resort it is built from.
    pub proof fn lemma_or(self, root: &YamlNode, kind: PossumNodeKind<T>, notes: Seq<AnnotationView>)
        ensures
            self.ready() <==> self.lhs.ready() && self.rhs.ready() && forall|root: &YamlNode|
                call_requires(self.default, (root,)),
            self.parses(root, kind, notes) <==> exists|
                first: PossumNodeKind<T>,
                first_notes: Seq<AnnotationView>,
                second: PossumNodeKind<T>,
                second_notes: Seq<AnnotationView>,
            | #[trigger]
                self.attempts(root, first, first_notes, second, second_notes, kind, notes),
    {
    }

    /// An alternation whose first parser cannot fail on `root` yields what
    /// that parser yields and reports what that parser reports: the second
    /// parser and the last resort are not run.
    pub proof fn lemma_first_wins(
        self,
        root: &YamlNode,
        kind: PossumNodeKind<T>,
        notes: Seq<AnnotationView>,
    )
        requires
            self.parses(root, kind, notes),
            forall|first: PossumNodeKind<T>, first_notes: Seq<AnnotationView>|
                self.lhs.parses(root, first, first_notes) ==> !(first is Invalid),
        ensures
            self.lhs.parses(root, kind, notes),
    {
    }

    /// An alternation whose first parser can only fail on `root` yields what
    /// the second parser yields, unless that fails too, and reports what the
    /// two of them report.
    pub proof fn lemma_second_tried(
        self,
        root: &YamlNode,
        kind: PossumNodeKind<T>,
        notes: Seq<AnnotationView>,
    )
        requires
            self.parses(root, kind, notes),
            forall|first: PossumNodeKind<T>, first_notes: Seq<AnnotationView>|
                self.lhs.parses(root, first, first_notes) ==> first is Invalid,
        ensures
            exists|
                first: PossumNodeKind<T>,
                first_notes: Seq<AnnotationView>,
                second: PossumNodeKind<T>,
                second_notes: Seq<AnnotationView>,
            |
                {
                    &&& #[trigger] self.lhs.parses(root, first, first_notes)
                    &&& #[trigger] self.rhs.parses(root, second, second_notes)
                    &&& notes == first_notes + second_notes
                    &&& if second is Invalid {
                        call_ensures(self.default, (root,), kind)
                    } else {
                        kind == second
                    }
                },
    {
        let (first, first_notes, second, second_notes) = choose|
            first: PossumNodeKind<T>,
            first_notes: Seq<AnnotationView>,
            second: PossumNodeKind<T>,
            second_notes: Seq<AnnotationView>,
        | #[trigger] self.attempts(root, first, first_notes, second, second_notes, kind, notes);
        assert(self.lhs.parses(root, first, first_notes));
        assert(self.rhs.parses(root, second, second_notes));
    }

    /// Where both parsers can only fail on `root` and report nothing when
    /// they do, the alternation yields what the last resort makes of `root`
    /// and reports nothing.
    pub proof fn lemma_last_resort(
        self,
        root: &YamlNode,
        kind: PossumNodeKind<T>,
        notes: Seq<AnnotationView>,
    )
        requires
            self.parses(root, kind, notes),
            forall|first: PossumNodeKind<T>, first_notes: Seq<AnnotationView>|
                self.lhs.parses(root, first, first_notes) ==> first is Invalid
                    && first_notes.len() == 0,
            forall|second: PossumNodeKind<T>, second_notes: Seq<AnnotationView>|
                self.rhs.parses(root, second, second_notes) ==> second is Invalid
                    && second_notes.len() == 0,
        ensures
            call_ensures(self.default, (root,), kind),
            notes.len() == 0,
    {
    }
}

/// Parsers can be given an alternative and a last resort.
pub trait OrableParser<T, RHS: Parser<T>, D: Fn(&YamlNode) -> PossumNodeKind<T>>: Parser<T>
    + Sized {
    fn or(self, rhs: RHS, default: D) -> (made: OrParser<T, Self, RHS, D>)
        ensures
            made.lhs == self,
            made.rhs == rhs,
            made.default == default,
    ;
}

impl<T, LHS: Parser<T>, RHS: Parser<T>, D: Fn(&YamlNode) -> PossumNodeKind<T>> OrableParser<
    T,
    RHS,
    D,
> for LHS {
    fn or(self, rhs: RHS, default: D) -> (made: OrParser<T, LHS, RHS, D>) {
        OrParser::new(self, rhs, default)
    }
}

/// Takes any string as an expression to be evaluated later, and hands every
/// other node to `inner`; where that fails, `default` says what the node is.
#[verifier::reject_recursive_types(T)]
#[verifier::reject_recursive_types(RHS)]
#[verifier::reject_recursive_types(D)]
pub struct MaybeExprParser<T, RHS: Parser<T>, D: Fn(&YamlNode) -> PossumNodeKind<T>> {
    pub inner: RHS,
    pub default: D,
    pub _t: PhantomData<T>,
}

impl<T, RHS: Parser<T>, D: Fn(&YamlNode) -> PossumNodeKind<T>> MaybeExprParser<T, RHS, D> {
    pub fn new(inner: RHS, default: D) -> (made: MaybeExprParser<T, RHS, D>)
        ensures
            made.inner == inner,
            made.default == default,
    {
        MaybeExprParser { inner, default, _t: PhantomData }
    }

    /// The alternation that this parser stands for: an expression first,
    /// `inner` second.
    pub open spec fn alternation(self) -> OrParser<T, ExprParser<T>, RHS, D> {
        OrParser { lhs: ExprParser(PhantomData), rhs: self.inner, default: self.default, _t: PhantomData }
    }
}

impl<T, RHS: Parser<T>, D: Fn(&YamlNode) -> PossumNodeKind<T>> MaybeExprParser<T, RHS, D> {
    /// What it means for this parser to be ready and to parse: what it means
    /// for the alternation that it stands for.
    pub proof fn lemma_maybe_expr(
        self,
        root: &YamlNode,
        kind: PossumNodeKind<T>,
        notes: Seq<AnnotationView>,
    )
        ensures
            self.ready() <==> self.inner.ready() && forall|root: &YamlNode|
                call_requires(self.default, (root,)),
            self.parses(root, kind, notes) <==> self.alternation().parses(root, kind, notes),
            self.alternation().lhs == ExprParser::<T>(PhantomData),
            self.alternation().rhs == self.inner,
            self.alternation().default == self.default,
    {
        let or = self.alternation();
        or.lemma_or(root, kind, notes);
        assert(or.lhs.ready());
        assert(or.rhs == self.inner);
        assert(or.default == self.default);
        assert(self.ready() == or.ready());
        assert(or.ready() == (self.inner.ready() && forall|r: &YamlNode|
            call_requires(self.default, (r,))));
    }
}

impl<T, RHS: Parser<T>, D: Fn(&YamlNode) -> PossumNodeKind<T>> Parser<T> for MaybeExprParser<
    T,
    RHS,
    D,
> {
    open spec fn ready(&self) -> bool {
        self.alternation().ready()
    }

    open spec fn parses(
        &self,
        root: &YamlNode,
        kind: PossumNodeKind<T>,
        notes: Seq<AnnotationView>,
    ) -> bool {
        self.alternation().parses(root, kind, notes)
    }

    fn parse_node(&self, root: &YamlNode, annotations: &mut Annotations) -> (kind: PossumNodeKind<
        T,
    >) {
        let ghost before = annotations@;
        let ghost or = self.alternation();
        assert(or.ready() && or.default == self.default && or.rhs == self.inner);
        let first = ExprParser::<T>::new().parse_node(root, annotations);
        let ghost middle = annotations@;
        match first {
            PossumNodeKind::Invalid(message) => {
                let second = self.inner.parse_node(root, annotations);
                proof {
                    lemma_grown_twice(before, middle, annotations@);
                }
                match second {
                    PossumNodeKind::Invalid(other) => {
                        let kind = (self.default)(root);
                        assert(or.attempts(
                            root,
                            PossumNodeKind::Invalid(message),
                            middle.skip(before.len() as int),
                            PossumNodeKind::Invalid(other),
                            annotations@.skip(middle.len() as int),
                            kind,
                            annotations@.skip(before.len() as int),
                        ));
                        kind
                    },
                    other => {
                        assert(or.attempts(
                            root,
                            PossumNodeKind::Invalid(message),
                            middle.skip(before.len() as int),
                            other,
                            annotations@.skip(middle.len() as int),
                            other,
                            annotations@.skip(before.len() as int),
                        ));
                        other
                    },
                }
            },
            other => {
                assert(or.attempts(
                    root,
                    other,
                    middle.skip(before.len() as int),
                    other,
                    middle.skip(before.len() as int),
                    other,
                    middle.skip(before.len() as int),
                ));
                other
            },
        }
    }
}

} // verus!
