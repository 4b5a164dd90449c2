//! Lints of the jobs of a workflow.
use crate::document::{
    Annotatable, Annotation, AnnotationLevel, AnnotationView, AsDocumentPointer,
};
use crate::lint::LintRule;
use crate::scavenge::ast::{PossumMap, PossumNode, PossumNodeKind};
use crate::workflow::job::Job;
use vstd::prelude::*;

verus! {

/// A workflow must hold at least one job.
pub struct EmptyJobs;

/// The diagnostic that reports a workflow without jobs at `pointer`.
pub open spec fn empty_jobs_note<P: AsDocumentPointer>(pointer: P) -> AnnotationView {
    AnnotationView {
        level: AnnotationLevel::Error,
        message: "No jobs present in this workflow"@,
        pointer: pointer.pointer(),
    }
}

impl EmptyJobs {
    pub fn at<P: AsDocumentPointer>(p: &P) -> (note: Annotation)
        ensures
            note@ == empty_jobs_note(*p),
    {
        Annotation::error(p, "No jobs present in this workflow")
    }
}

impl LintRule<PossumMap<String, Job>> for EmptyJobs {
    open spec fn applies(&self, root: &PossumNode<PossumMap<String, Job>>) -> bool {
        true
    }

    /// Jobs that were understood and are none are reported where they
    /// stand; jobs that were not understood are not this rule's to report.
    open spec fn findings(&self, root: &PossumNode<PossumMap<String, Job>>) -> Seq<
        AnnotationView,
    > {
        match root.kind {
            PossumNodeKind::Value(jobs) => if jobs@.len() == 0 {
                seq![empty_jobs_note(*root)]
            } else {
                Seq::empty()
            },
            _ => Seq::empty(),
        }
    }

    fn lint<A: Annotatable>(&self, root: &PossumNode<PossumMap<String, Job>>, annotations: &mut A) {
        match root.value() {
            Some(j) => {
                if j.is_empty() {
                    annotations.annotate(EmptyJobs::at(root));
                    assert(annotations.taken() =~= old(annotations).taken() + self.findings(
                        root,
                    ));
                } else {
                    assert(annotations.taken() =~= old(annotations).taken() + self.findings(
                        root,
                    ));
                }
            },
            None => {
                assert(annotations.taken() =~= old(annotations).taken() + self.findings(root));
            },
        }
    }
}

} // verus!
