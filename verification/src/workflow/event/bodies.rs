//! What the events that take more than types of activity are narrowed by.
use super::event::{default_activities, Event};
use super::ActivityTypes;
use crate::scavenge::extraction::Number;
use vstd::prelude::*;

verus! {

/// When a scheduled workflow runs.
#[derive(Debug)]
pub enum Schedule {
    Cron(String),
}

/// What a pull request event is narrowed by.
#[derive(Debug)]
pub struct PullRequest {
    pub branches: Vec<String>,
    pub ignored_branches: Vec<String>,
    pub paths: Vec<String>,
    pub ignored_paths: Vec<String>,
    pub types: ActivityTypes,
}

impl PullRequest {
    /// Narrowed by nothing, and answering to the types of activity that a
    /// pull request answers to when none are named.
    pub open spec fn is_default(self) -> bool {
        &&& self.branches@.len() == 0
        &&& self.ignored_branches@.len() == 0
        &&& self.paths@.len() == 0
        &&& self.ignored_paths@.len() == 0
        &&& self.types.wf()
        &&& self.types@ == default_activities("pull_request"@).to_set()
    }
}

impl Default for PullRequest {
    fn default() -> (body: PullRequest)
        ensures
            body.is_default(),
    {
        PullRequest {
            branches: Vec::new(),
            ignored_branches: Vec::new(),
            paths: Vec::new(),
            ignored_paths: Vec::new(),
            types: Event::defaults_for("pull_request"),
        }
    }
}

/// What a push event is narrowed by.
#[derive(Debug)]
pub struct Push {
    pub branches: Vec<String>,
    pub ignored_branches: Vec<String>,
    pub paths: Vec<String>,
    pub ignored_paths: Vec<String>,
    pub tags: Vec<String>,
    pub ignored_tags: Vec<String>,
    pub types: ActivityTypes,
}

impl Push {
    /// Narrowed by nothing, and answering to the types of activity that a
    /// push answers to when none are named.
    pub open spec fn is_default(self) -> bool {
        &&& self.branches@.len() == 0
        &&& self.ignored_branches@.len() == 0
        &&& self.paths@.len() == 0
        &&& self.ignored_paths@.len() == 0
        &&& self.tags@.len() == 0
        &&& self.ignored_tags@.len() == 0
        &&& self.types.wf()
        &&& self.types@ == default_activities("push"@).to_set()
    }
}

impl Default for Push {
    fn default() -> (body: Push)
        ensures
            body.is_default(),
    {
        Push {
            branches: Vec::new(),
            ignored_branches: Vec::new(),
            paths: Vec::new(),
            ignored_paths: Vec::new(),
            tags: Vec::new(),
            ignored_tags: Vec::new(),
            types: Event::defaults_for("push"),
        }
    }
}

/// One input of a called workflow.
#[derive(Debug)]
pub struct CallInputEntry<T> {
    pub required: bool,
    pub description: String,
    pub default: Option<T>,
}

/// An input of a called workflow, by the type of its value.
#[derive(Debug)]
pub enum CallInput {
    Bool(CallInputEntry<bool>),
    Str(CallInputEntry<String>),
    Number(CallInputEntry<Number>),
    Unsure(CallInputEntry<String>),
}

/// No name occurs twice among `entries`.
pub open spec fn names_differ<T>(entries: Seq<(String, T)>) -> bool {
    forall|i: int, j: int|
        0 <= i < j < entries.len() ==> (#[trigger] entries[i]).0@ != (#[trigger] entries[j]).0@
}

/// What a called workflow takes and hands back, each by name. A body is well
/// formed where no name occurs twice among the inputs, among the outputs or
/// among the secrets.
#[derive(Debug)]
pub struct WorkflowCall {
    pub inputs: Vec<(String, CallInput)>,
    pub outputs: Vec<(String, String)>,
    pub secrets: Vec<(String, bool)>,
}

impl WorkflowCall {
    /// Each list names every entry once.
    pub open spec fn wf(self) -> bool {
        &&& names_differ(self.inputs@)
        &&& names_differ(self.outputs@)
        &&& names_differ(self.secrets@)
    }

    /// Taking and handing back nothing.
    pub open spec fn is_default(self) -> bool {
        self.inputs@.len() == 0 && self.outputs@.len() == 0 && self.secrets@.len() == 0
    }
}

impl Default for WorkflowCall {
    fn default() -> (body: WorkflowCall)
        ensures
            body.is_default(),
            body.wf(),
    {
        WorkflowCall { inputs: Vec::new(), outputs: Vec::new(), secrets: Vec::new() }
    }
}

/// One input of a dispatched workflow.
#[derive(Debug)]
pub struct DispatchInputEntry<T> {
    pub description: String,
    pub default: Option<T>,
    pub required: bool,
}

/// An input of a dispatched workflow, by the type of its value.
#[derive(Debug)]
pub enum DispatchInput {
    Bool(DispatchInputEntry<bool>),
    Str(DispatchInputEntry<String>),
    Number(DispatchInputEntry<Number>),
    Choice(DispatchInputEntry<String>, Vec<String>),
    Unsure(DispatchInputEntry<String>),
}

/// What a dispatched workflow takes, by name. A body is well formed where no
/// name occurs twice.
#[derive(Debug)]
pub struct WorkflowDispatch {
    pub inputs: Vec<(String, DispatchInput)>,
}

impl WorkflowDispatch {
    /// The list names every input once.
    pub open spec fn wf(self) -> bool {
        names_differ(self.inputs@)
    }

    /// Taking nothing.
    pub open spec fn is_default(self) -> bool {
        self.inputs@.len() == 0
    }
}

impl Default for WorkflowDispatch {
    fn default() -> (body: WorkflowDispatch)
        ensures
            body.is_default(),
            body.wf(),
    {
        WorkflowDispatch { inputs: Vec::new() }
    }
}

/// What a workflow run event is narrowed by.
#[derive(Debug)]
pub struct WorkflowRun {
    pub branches: Vec<String>,
    pub ignored_branches: Vec<String>,
    pub types: ActivityTypes,
    pub workflows: Vec<String>,
}

impl WorkflowRun {
    /// Narrowed by nothing and answering to no type of activity.
    pub open spec fn is_default(self) -> bool {
        &&& self.branches@.len() == 0
        &&& self.ignored_branches@.len() == 0
        &&& self.workflows@.len() == 0
        &&& self.types.wf()
        &&& self.types@ == Set::<Seq<char>>::empty()
    }
}

impl Default for WorkflowRun {
    fn default() -> (body: WorkflowRun)
        ensures
            body.is_default(),
    {
        WorkflowRun {
            branches: Vec::new(),
            ignored_branches: Vec::new(),
            types: ActivityTypes::new(),
            workflows: Vec::new(),
        }
    }
}

} // verus!
