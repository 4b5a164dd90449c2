//! Lints of a workflow as a whole.
use super::{missing_property_note, MissingProperty};
use crate::document::{Annotatable, AnnotationView, AsDocumentPointer};
use crate::lint::{LintRule, LintViolation};
use crate::scavenge::ast::PossumNode;
use crate::workflow::Workflow;
use vstd::prelude::*;

verus! {

/// A workflow must say what it runs on and what its jobs are.
pub struct MissingWorkflowProperties;

/// What is reported for a workflow at `pointer` that lacks `on` (`no_on`) or
/// `jobs` (`no_jobs`): `on` first.
pub open spec fn missing_workflow_properties<P: AsDocumentPointer>(
    no_on: bool,
    no_jobs: bool,
    pointer: P,
) -> Seq<AnnotationView> {
    let on = if no_on {
        seq![missing_property_note("on"@, pointer.pointer())]
    } else {
        Seq::empty()
    };
    let jobs = if no_jobs {
        seq![missing_property_note("jobs"@, pointer.pointer())]
    } else {
        Seq::empty()
    };
    on + jobs
}

impl LintRule<Workflow> for MissingWorkflowProperties {
    /// The rule is checked against a workflow that was understood.
    open spec fn applies(&self, root: &PossumNode<Workflow>) -> bool {
        root.kind is Value
    }

    open spec fn findings(&self, root: &PossumNode<Workflow>) -> Seq<AnnotationView> {
        missing_workflow_properties(
            root.kind->Value_0.on is None,
            root.kind->Value_0.jobs is None,
            *root,
        )
    }

    fn lint<A: Annotatable>(&self, root: &PossumNode<Workflow>, annotations: &mut A) {
        let wf = root.value().unwrap();
        let ghost before = annotations.taken();
        if wf.on.is_none() {
            annotations.annotate(MissingProperty("on").at(root));
        }
        let ghost middle = annotations.taken();
        if wf.jobs.is_none() {
            annotations.annotate(MissingProperty("jobs").at(root));
        }
        proof {
            let on = if wf.on is None {
                seq![missing_property_note("on"@, root.pointer())]
            } else {
                Seq::empty()
            };
            assert(middle =~= before + on);
            assert(annotations.taken() =~= before + self.findings(root));
        }
    }
}

} // verus!
