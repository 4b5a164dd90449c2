//! Workflows: the records that the schema parsers fill, the parsers
//! themselves, and the lints that look at what was parsed.
pub mod event;
pub mod job;
pub mod lints;
pub mod on;
pub mod parser;

pub use self::parser::WorkflowParser;
use crate::scavenge::ast::{PossumMap, PossumNode};
use vstd::prelude::*;

verus! {

/// The root of a workflow document.
#[derive(Debug)]
pub struct Workflow {
    pub name: Option<PossumNode<String>>,
    pub run_name: Option<PossumNode<String>>,
    pub on: Option<PossumNode<on::Trigger>>,
    pub jobs: Option<PossumNode<PossumMap<String, job::Job>>>,
    pub permissions: Option<PossumNode<Permission>>,
    pub concurrency: Option<PossumNode<Concurrency>>,
    pub env: Option<PossumNode<PossumMap<String, String>>>,
}

impl Workflow {
    /// The workflow of which no field has been met.
    pub open spec fn blank() -> Workflow {
        Workflow {
            name: None,
            run_name: None,
            on: None,
            jobs: None,
            permissions: None,
            concurrency: None,
            env: None,
        }
    }
}

impl Default for Workflow {
    fn default() -> (workflow: Workflow)
        ensures
            workflow == Workflow::blank(),
    {
        Workflow {
            name: None,
            run_name: None,
            on: None,
            jobs: None,
            permissions: None,
            concurrency: None,
            env: None,
        }
    }
}

/// What may run at the same time: a bare group name, or a group with the
/// choice to cancel what is in progress.
#[derive(Debug)]
pub enum Concurrency {
    Concurrency(String),
    Group { group: Option<PossumNode<String>>, cancel_in_progress: Option<PossumNode<bool>> },
}

/// The permissions of a workflow or a job: one grant for everything, or a
/// grant scope by scope.
#[derive(Debug)]
pub enum Permission {
    GlobalGrant(Grant),
    GlobalRevoke,
    IndividualGrants(PossumMap<String, Grant>),
}

/// What a scope is granted.
#[derive(Debug, Copy, Clone, PartialEq, Eq, Structural)]
pub enum Grant {
    Read,
    Write,
    Deny,
}

} // verus!
