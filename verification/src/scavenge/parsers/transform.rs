//! Parsers that work on what another parser yields: transforming a value,
//! letting a value fail after the fact, and promoting one value to a sequence.
use crate::document::{AnnotationView, Annotations, AsDocumentPointer};
use crate::scavenge::ast::{PossumNodeKind, PossumSeq};
use crate::scavenge::parser::Parser;
use crate::scavenge::yaml::YamlNode;
use std::marker::PhantomData;
use vstd::prelude::*;

verus! {

/// `mapped` is `inner` with its value, if it has one, sent through `f`.
pub open spec fn mapped_by<T, U, F: Fn(T) -> U>(
    f: F,
    inner: PossumNodeKind<T>,
    mapped: PossumNodeKind<U>,
) -> bool {
    match inner {
        PossumNodeKind::Value(t) => mapped matches PossumNodeKind::Value(u) && call_ensures(
            f,
            (t,),
            u,
        ),
        PossumNodeKind::Expr(s) => mapped == PossumNodeKind::<U>::Expr(s),
        PossumNodeKind::Invalid(s) => mapped == PossumNodeKind::<U>::Invalid(s),
        PossumNodeKind::Empty => mapped == PossumNodeKind::<U>::Empty,
    }
}

/// `mapped` is `inner` with its value, if it has one, replaced by what `f`
/// makes of it.
pub open spec fn flat_mapped_by<T, U, F: Fn(T) -> PossumNodeKind<U>>(
    f: F,
    inner: PossumNodeKind<T>,
    mapped: PossumNodeKind<U>,
) -> bool {
    match inner {
        PossumNodeKind::Value(t) => call_ensures(f, (t,), mapped),
        PossumNodeKind::Expr(s) => mapped == PossumNodeKind::<U>::Expr(s),
        PossumNodeKind::Invalid(s) => mapped == PossumNodeKind::<U>::Invalid(s),
        PossumNodeKind::Empty => mapped == PossumNodeKind::<U>::Empty,
    }
}

/// Runs `parser` and transforms the value it yields. What is not a value
/// passes through untouched.
#[verifier::reject_recursive_types(T)]
#[verifier::reject_recursive_types(U)]
#[verifier::reject_recursive_types(P)]
#[verifier::reject_recursive_types(F)]
pub struct TransformParser<T, U, P: Parser<T>, F: Fn(T) -> U> {
    pub parser: P,
    pub transform: F,
    pub _t: PhantomData<T>,
    pub _u: PhantomData<U>,
}

impl<T, U, P: Parser<T>, F: Fn(T) -> U> TransformParser<T, U, P, F> {
    pub fn new(parser: P, transform: F) -> (made: TransformParser<T, U, P, F>)
        ensures
            made.parser == parser,
            made.transform == transform,
    {
        TransformParser { parser, transform, _t: PhantomData, _u: PhantomData }
    }
}

impl<T, U, P: Parser<T>, F: Fn(T) -> U> Parser<U> for TransformParser<T, U, P, F> {
    open spec fn ready(&self) -> bool {
        &&& self.parser.ready()
        &&& forall|t: T| call_requires(self.transform, (t,))
    }

    open spec fn parses(
        &self,
        root: &YamlNode,
        kind: PossumNodeKind<U>,
        notes: Seq<AnnotationView>,
    ) -> bool {
        exists|inner: PossumNodeKind<T>| #[trigger]
            self.parser.parses(root, inner, notes) && mapped_by(self.transform, inner, kind)
    }

    fn parse_node(&self, root: &YamlNode, annotations: &mut Annotations) -> (kind: PossumNodeKind<
        U,
    >) {
        match self.parser.parse_node(root, annotations) {
            PossumNodeKind::Value(t) => PossumNodeKind::Value((self.transform)(t)),
            PossumNodeKind::Expr(s) => PossumNodeKind::Expr(s),
            PossumNodeKind::Invalid(s) => PossumNodeKind::Invalid(s),
            PossumNodeKind::Empty => PossumNodeKind::Empty,
        }
    }
}

impl<T, U, P: Parser<T>, F: Fn(T) -> U> TransformParser<T, U, P, F> {
    /// What it means for a transforming parser to be ready and to parse,
    /// spelled out for any parser and function it is built from.
    pub proof fn lemma_transform(
        self,
        root: &YamlNode,
        kind: PossumNodeKind<U>,
        notes: Seq<AnnotationView>,
    )
        ensures
            self.ready() <==> self.parser.ready() && forall|t: T|
                call_requires(self.transform, (t,)),
            self.parses(root, kind, notes) <==> exists|inner: PossumNodeKind<T>| #[trigger]
                self.parser.parses(root, inner, notes) && mapped_by(self.transform, inner, kind),
    {
    }
}

/// Parsers can be followed by a transformation.
pub trait TransformableParser<T, U, F: Fn(T) -> U>: Parser<T> + Sized {
    fn to(self, f: F) -> (made: TransformParser<T, U, Self, F>)
        ensures
            made.parser == self,
            made.transform == f,
    ;
}

impl<T, U, P: Parser<T>, F: Fn(T) -> U> TransformableParser<T, U, F> for P {
    fn to(self, f: F) -> (made: TransformParser<T, U, P, F>) {
        TransformParser::new(self, f)
    }
}

/// Runs `parser` and lets `transform` make any node kind of the value it
/// yields: a check that a well-formed value may still fail.
#[verifier::reject_recursive_types(T)]
#[verifier::reject_recursive_types(U)]
#[verifier::reject_recursive_types(P)]
#[verifier::reject_recursive_types(F)]
pub struct FlatMapParser<T, U, P: Parser<T>, F: Fn(T) -> PossumNodeKind<U>> {
    pub parser: P,
    pub transform: F,
    pub _t: PhantomData<T>,
    pub _u: PhantomData<U>,
}

impl<T, U, P: Parser<T>, F: Fn(T) -> PossumNodeKind<U>> FlatMapParser<T, U, P, F> {
    pub fn new(parser: P, transform: F) -> (made: FlatMapParser<T, U, P, F>)
        ensures
            made.parser == parser,
            made.transform == transform,
    {
        FlatMapParser { parser, transform, _t: PhantomData, _u: PhantomData }
    }
}

impl<T, U, P: Parser<T>, F: Fn(T) -> PossumNodeKind<U>> Parser<U> for FlatMapParser<T, U, P, F> {
    open spec fn ready(&self) -> bool {
        &&& self.parser.ready()
        &&& forall|t: T| call_requires(self.transform, (t,))
    }

    open spec fn parses(
        &self,
        root: &YamlNode,
        kind: PossumNodeKind<U>,
        notes: Seq<AnnotationView>,
    ) -> bool {
        exists|inner: PossumNodeKind<T>| #[trigger]
            self.parser.parses(root, inner, notes) && flat_mapped_by(self.transform, inner, kind)
    }

    fn parse_node(&self, root: &YamlNode, annotations: &mut Annotations) -> (kind: PossumNodeKind<
        U,
    >) {
        match self.parser.parse_node(root, annotations) {
            PossumNodeKind::Value(t) => (self.transform)(t),
            PossumNodeKind::Expr(s) => PossumNodeKind::Expr(s),
            PossumNodeKind::Invalid(s) => PossumNodeKind::Invalid(s),
            PossumNodeKind::Empty => PossumNodeKind::Empty,
        }
    }
}

impl<T, U, P: Parser<T>, F: Fn(T) -> PossumNodeKind<U>> FlatMapParser<T, U, P, F> {
    /// What it means for a checking parser to be ready and to parse, spelled
    /// out for any parser and function it is built from.
    pub proof fn lemma_flat_map(
        self,
        root: &YamlNode,
        kind: PossumNodeKind<U>,
        notes: Seq<AnnotationView>,
    )
        ensures
            self.ready() <==> self.parser.ready() && forall|t: T|
                call_requires(self.transform, (t,)),
            self.parses(root, kind, notes) <==> exists|inner: PossumNodeKind<T>| #[trigger]
                self.parser.parses(root, inner, notes) && flat_mapped_by(
                    self.transform,
                    inner,
                    kind,
                ),
    {
    }
}

/// Parsers can be followed by a check that may fail.
pub trait FlatMappableParser<T, U, F: Fn(T) -> PossumNodeKind<U>>: Parser<T> + Sized {
    fn flatten(self, transform: F) -> (made: FlatMapParser<T, U, Self, F>)
        ensures
            made.parser == self,
            made.transform == transform,
    ;
}

impl<T, U, P: Parser<T>, F: Fn(T) -> PossumNodeKind<U>> FlatMappableParser<T, U, F> for P {
    fn flatten(self, transform: F) -> (made: FlatMapParser<T, U, P, F>) {
        FlatMapParser::new(self, transform)
    }
}

/// Promotes one `T` into a sequence that holds it alone, at the position of
/// the node it was parsed from. Where `inner` cannot understand the node,
/// there is nothing to promote and the result is `Invalid` with the reason
/// that `inner` gave: an alternation can then go on to another shape. To
/// parse a sequence of `T`, see `SeqParser`.
#[verifier::reject_recursive_types(T)]
#[verifier::reject_recursive_types(P)]
pub struct Pluralize<T, P: Parser<T>> {
    pub inner: P,
    pub _t: PhantomData<T>,
}

impl<T, P: Parser<T>> Pluralize<T, P> {
    pub fn new(inner: P) -> (made: Pluralize<T, P>)
        ensures
            made.inner == inner,
    {
        Pluralize { inner, _t: PhantomData }
    }
}

/// `promoted` is what promoting `inner`, parsed from `root`, gives: an
/// `Invalid` stays `Invalid` with its reason, and anything else becomes the
/// sequence of the one node that holds it where `root` stands.
pub open spec fn promoted<T>(
    root: &YamlNode,
    inner: PossumNodeKind<T>,
    promoted: PossumNodeKind<PossumSeq<T>>,
) -> bool {
    match inner {
        PossumNodeKind::Invalid(message) => promoted == PossumNodeKind::<PossumSeq<T>>::Invalid(
            message,
        ),
        _ => {
            &&& promoted matches PossumNodeKind::Value(seq)
            &&& seq@.len() == 1
            &&& seq@[0].location == root.pointer()
            &&& seq@[0].kind == inner
        },
    }
}

impl<T, P: Parser<T>> Parser<PossumSeq<T>> for Pluralize<T, P> {
    open spec fn ready(&self) -> bool {
        self.inner.ready()
    }

    open spec fn parses(
        &self,
        root: &YamlNode,
        kind: PossumNodeKind<PossumSeq<T>>,
        notes: Seq<AnnotationView>,
    ) -> bool {
        exists|inner: PossumNodeKind<T>| #[trigger]
            self.inner.parses(root, inner, notes) && promoted(root, inner, kind)
    }

    fn parse_node(&self, root: &YamlNode, annotations: &mut Annotations) -> (kind: PossumNodeKind<
        PossumSeq<T>,
    >) {
        match self.inner.parse_node(root, annotations) {
            PossumNodeKind::Invalid(message) => PossumNodeKind::Invalid(message),
            understood => PossumNodeKind::Value(PossumSeq::single(understood.at(root))),
        }
    }
}

impl<T, P: Parser<T>> Pluralize<T, P> {
    /// What it means for a promoting parser to be ready and to parse,
    /// spelled out for any parser it is built from.
    pub proof fn lemma_pluralize(
        self,
        root: &YamlNode,
        kind: PossumNodeKind<PossumSeq<T>>,
        notes: Seq<AnnotationView>,
    )
        ensures
            self.ready() <==> self.inner.ready(),
            self.parses(root, kind, notes) <==> exists|inner: PossumNodeKind<T>| #[trigger]
                self.inner.parses(root, inner, notes) && promoted(root, inner, kind),
    {
    }

    /// Promoting fails exactly where `inner` fails: the result is `Invalid`
    /// only if `inner` may yield `Invalid` on `root`, and where `inner` can
    /// only yield `Invalid` on `root`, so can the promotion.
    pub proof fn lemma_pluralize_fails_with_inner(
        self,
        root: &YamlNode,
        kind: PossumNodeKind<PossumSeq<T>>,
        notes: Seq<AnnotationView>,
    )
        requires
            self.parses(root, kind, notes),
        ensures
            kind is Invalid ==> exists|inner: PossumNodeKind<T>| #[trigger]
                self.inner.parses(root, inner, notes) && inner is Invalid,
            (forall|inner: PossumNodeKind<T>, said: Seq<AnnotationView>| #[trigger]
                self.inner.parses(root, inner, said) ==> inner is Invalid) ==> kind is Invalid,
            (forall|inner: PossumNodeKind<T>, said: Seq<AnnotationView>| #[trigger]
                self.inner.parses(root, inner, said) ==> !(inner is Invalid)) ==> (kind
                matches PossumNodeKind::Value(seq) && seq@.len() == 1 && seq@[0].location
                == root.pointer() && self.inner.parses(root, seq@[0].kind, notes)),
    {
        let inner = choose|inner: PossumNodeKind<T>| #[trigger]
            self.inner.parses(root, inner, notes) && promoted(root, inner, kind);
        assert(self.inner.parses(root, inner, notes));
    }
}

/// Parsers of one value can be made parsers of a one-element sequence.
pub trait PluralizableParser<T>: Parser<T> + Sized {
    fn pluralize(self) -> (made: Pluralize<T, Self>)
        ensures
            made.inner == self,
    ;
}

impl<T, P: Parser<T>> PluralizableParser<T> for P {
    fn pluralize(self) -> (made: Pluralize<T, P>) {
        Pluralize::new(self)
    }
}

} // verus!
