//! Lints: rules that look at a parsed tree and report what they find.
use crate::document::{Annotatable, Annotation, AnnotationView, AsDocumentPointer, DocumentPointer};
use crate::scavenge::ast::PossumNode;
use vstd::prelude::*;

verus! {

/// A rule that is checked against a node of type `T`.
pub trait LintRule<T> {
    /// Whether the rule can be checked against `root`.
    spec fn applies(&self, root: &PossumNode<T>) -> bool;

    /// What the rule finds in `root`, in the order in which it reports it.
    spec fn findings(&self, root: &PossumNode<T>) -> Seq<AnnotationView>;

    fn lint<A: Annotatable>(&self, root: &PossumNode<T>, annotations: &mut A)
        requires
            self.applies(root),
        ensures
            final(annotations).taken() == old(annotations).taken() + self.findings(root),
    ;
}

/// Something that a rule found to be wrong.
pub trait LintViolation {
    /// The diagnostic that reports the violation at `pointer`.
    spec fn note(&self, pointer: DocumentPointer) -> AnnotationView;

    fn at<P: AsDocumentPointer>(&self, loc: &P) -> (note: Annotation)
        ensures
            note@ == self.note(loc.pointer()),
    ;
}

} // verus!
