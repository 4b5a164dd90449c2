//! What makes a workflow run: the events it answers to and what each event
//! is narrowed by.
use crate::scavenge::ast::{PossumMap, PossumNode, PossumNodeKind, PossumSeq};
use crate::scavenge::extraction::Number;
use crate::text::same_text;
use vstd::prelude::*;

verus! {

/// The events of a workflow with what narrows each, in source order.
#[derive(Debug)]
pub struct Trigger(pub PossumMap<EventKind, Event>);

impl View for Trigger {
    type V = Seq<(PossumNode<EventKind>, PossumNode<Event>)>;

    open spec fn view(&self) -> Seq<(PossumNode<EventKind>, PossumNode<Event>)> {
        self.0@
    }
}

impl Trigger {
    pub fn empty() -> (trigger: Trigger)
        ensures
            trigger@.len() == 0,
    {
        Trigger(PossumMap::empty())
    }

    /// Puts an event with what narrows it behind those already held.
    pub fn add_event(&mut self, kind: PossumNode<EventKind>, event: PossumNode<Event>)
        ensures
            final(self)@ == old(self)@.push((kind, event)),
    {
        self.0.insert(kind, event);
    }

    /// Puts an event that nothing narrows behind those already held: its
    /// body is `Empty`, at the place of its name.
    pub fn add_event_name(&mut self, kind: PossumNode<EventKind>)
        ensures
            final(self)@ == old(self)@.push(
                (kind, PossumNode { location: kind.location, kind: PossumNodeKind::Empty }),
            ),
    {
        let loc = kind.loc();
        self.add_event(kind, PossumNodeKind::Empty.at(&loc));
    }

    /// The trigger that holds the one event `kind`, which nothing narrows.
    pub fn from_name(kind: PossumNode<EventKind>) -> (trigger: Trigger)
        ensures
            trigger@ == seq![
                (kind, PossumNode { location: kind.location, kind: PossumNodeKind::<Event>::Empty }),
            ],
    {
        let mut trig = Trigger::empty();
        trig.add_event_name(kind);
        assert(trig@ =~= seq![
            (kind, PossumNode { location: kind.location, kind: PossumNodeKind::<Event>::Empty }),
        ]);
        trig
    }

    /// The trigger that holds the events `kinds` in their order, none of them
    /// narrowed.
    pub fn from_names(kinds: PossumSeq<EventKind>) -> (trigger: Trigger)
        ensures
            trigger@.len() == kinds@.len(),
            forall|i: int|
                0 <= i < kinds@.len() ==> #[trigger] trigger@[i] == (
                    kinds@[i],
                    PossumNode { location: kinds@[i].location, kind: PossumNodeKind::<Event>::Empty },
                ),
    {
        let mut trig = Trigger::empty();
        let mut nodes = kinds.into_nodes();
        let ghost all = nodes@;
        let mut taken: Vec<PossumNode<EventKind>> = Vec::new();
        while nodes.len() > 0
            invariant
                nodes@.len() <= all.len(),
                all.len() == nodes@.len() + taken@.len(),
                forall|i: int| 0 <= i < nodes@.len() ==> nodes@[i] == all[i],
                forall|i: int|
                    0 <= i < taken@.len() ==> #[trigger] taken@[i] == all[all.len() - 1 - i],
            decreases nodes@.len(),
        {
            let node = nodes.pop().unwrap();
            taken.push(node);
        }
        while taken.len() > 0
            invariant
                taken@.len() <= all.len(),
                trig@.len() == all.len() - taken@.len(),
                forall|i: int|
                    0 <= i < taken@.len() ==> #[trigger] taken@[i] == all[all.len() - 1 - i],
                forall|i: int|
                    0 <= i < trig@.len() ==> #[trigger] trig@[i] == (
                        all[i],
                        PossumNode { location: all[i].location, kind: PossumNodeKind::<Event>::Empty },
                    ),
            decreases taken@.len(),
        {
            let node = taken.pop().unwrap();
            trig.add_event_name(node);
        }
        trig
    }

    /// The trigger that holds the pairs of `events` as they stand.
    pub fn from_events(events: PossumMap<EventKind, Event>) -> (trigger: Trigger)
        ensures
            trigger.0 == events,
    {
        Trigger(events)
    }
}

impl Default for Trigger {
    fn default() -> (trigger: Trigger)
        ensures
            trigger@.len() == 0,
    {
        Trigger::empty()
    }
}

/// A pattern that is matched against names of branches, tags or paths.
#[derive(Debug)]
pub struct Globbed(pub String);

impl Globbed {
    pub fn new(s: String) -> (globbed: Globbed)
        ensures
            globbed.0 == s,
    {
        Globbed(s)
    }
}

/// What narrows one event.
#[derive(Debug)]
pub struct Event {
    pub branches: Option<PossumNode<PossumSeq<Globbed>>>,
    pub branches_ignore: Option<PossumNode<PossumSeq<Globbed>>>,
    pub paths: Option<PossumNode<PossumSeq<Globbed>>>,
    pub paths_ignore: Option<PossumNode<PossumSeq<Globbed>>>,
    pub tags: Option<PossumNode<PossumSeq<Globbed>>>,
    pub tags_ignore: Option<PossumNode<PossumSeq<Globbed>>>,
    pub inputs: Option<PossumNode<PossumMap<String, WorkflowInput>>>,
    pub outputs: Option<PossumNode<PossumMap<String, WorkflowOutput>>>,
    pub secrets: Option<PossumNode<PossumMap<String, InheritedSecret>>>,
}

impl Event {
    /// The event that nothing narrows.
    pub open spec fn blank() -> Event {
        Event {
            branches: None,
            branches_ignore: None,
            paths: None,
            paths_ignore: None,
            tags: None,
            tags_ignore: None,
            inputs: None,
            outputs: None,
            secrets: None,
        }
    }

    pub fn new() -> (event: Event)
        ensures
            event == Event::blank(),
    {
        Event {
            branches: None,
            branches_ignore: None,
            paths: None,
            paths_ignore: None,
            tags: None,
            tags_ignore: None,
            inputs: None,
            outputs: None,
            secrets: None,
        }
    }
}

impl Default for Event {
    fn default() -> (event: Event)
        ensures
            event == Event::blank(),
    {
        Event::new()
    }
}

/// The events that can make a workflow run.
#[derive(Debug, Copy, Clone, PartialEq, Eq, Structural)]
pub enum EventKind {
    BranchProtectionRule,
    CheckRun,
    CheckSuite,
    Create,
    Delete,
    Deployment,
    DeploymentStatus,
    Discussion,
    DiscussionComment,
    Fork,
    Gollum,
    IssueComment,
    Issues,
    Label,
    MergeGroup,
    Milestone,
    PageBuild,
    Project,
    ProjectCard,
    ProjectColumn,
    Public,
    PullRequest,
    PullRequestReview,
    PullRequestReviewComment,
    PullRequestTarget,
    Push,
    RegistryPackage,
    Release,
    RepositoryDispatch,
    Schedule,
    Status,
    Watch,
    WorkflowCall,
    WorkflowDispatch,
    WorkflowRun,
}

/// The events in the order in which their names are looked up.
pub open spec fn event_kinds() -> Seq<EventKind> {
    seq![
        EventKind::BranchProtectionRule,
        EventKind::CheckRun,
        EventKind::CheckSuite,
        EventKind::Create,
        EventKind::Delete,
        EventKind::Deployment,
        EventKind::DeploymentStatus,
        EventKind::Discussion,
        EventKind::DiscussionComment,
        EventKind::Fork,
        EventKind::Gollum,
        EventKind::IssueComment,
        EventKind::Issues,
        EventKind::Label,
        EventKind::MergeGroup,
        EventKind::Milestone,
        EventKind::PageBuild,
        EventKind::Project,
        EventKind::ProjectCard,
        EventKind::ProjectColumn,
        EventKind::Public,
        EventKind::PullRequest,
        EventKind::PullRequestReview,
        EventKind::PullRequestReviewComment,
        EventKind::PullRequestTarget,
        EventKind::Push,
        EventKind::RegistryPackage,
        EventKind::Release,
        EventKind::RepositoryDispatch,
        EventKind::Schedule,
        EventKind::Status,
        EventKind::Watch,
        EventKind::WorkflowCall,
        EventKind::WorkflowDispatch,
        EventKind::WorkflowRun,
    ]
}

/// The first of `kinds[from..]` that is named `raw`, if there is one.
pub open spec fn event_named_from(kinds: Seq<EventKind>, raw: Seq<char>, from: int) -> Option<
    EventKind,
>
    decreases kinds.len() - from,
{
    if from < 0 || from >= kinds.len() {
        None
    } else if kinds[from].text() == raw {
        Some(kinds[from])
    } else {
        event_named_from(kinds, raw, from + 1)
    }
}

/// The event that is named `raw`, if there is one.
pub open spec fn event_named(raw: Seq<char>) -> Option<EventKind> {
    event_named_from(event_kinds(), raw, 0)
}

impl EventKind {
    /// The name of an event as a workflow writes it: lower case, the words
    /// joined by underscores.
    pub open spec fn text(self) -> Seq<char> {
        match self {
            EventKind::BranchProtectionRule => "branch_protection_rule"@,
            EventKind::CheckRun => "check_run"@,
            EventKind::CheckSuite => "check_suite"@,
            EventKind::Create => "create"@,
            EventKind::Delete => "delete"@,
            EventKind::Deployment => "deployment"@,
            EventKind::DeploymentStatus => "deployment_status"@,
            EventKind::Discussion => "discussion"@,
            EventKind::DiscussionComment => "discussion_comment"@,
            EventKind::Fork => "fork"@,
            EventKind::Gollum => "gollum"@,
            EventKind::IssueComment => "issue_comment"@,
            EventKind::Issues => "issues"@,
            EventKind::Label => "label"@,
            EventKind::MergeGroup => "merge_group"@,
            EventKind::Milestone => "milestone"@,
            EventKind::PageBuild => "page_build"@,
            EventKind::Project => "project"@,
            EventKind::ProjectCard => "project_card"@,
            EventKind::ProjectColumn => "project_column"@,
            EventKind::Public => "public"@,
            EventKind::PullRequest => "pull_request"@,
            EventKind::PullRequestReview => "pull_request_review"@,
            EventKind::PullRequestReviewComment => "pull_request_review_comment"@,
            EventKind::PullRequestTarget => "pull_request_target"@,
            EventKind::Push => "push"@,
            EventKind::RegistryPackage => "registry_package"@,
            EventKind::Release => "release"@,
            EventKind::RepositoryDispatch => "repository_dispatch"@,
            EventKind::Schedule => "schedule"@,
            EventKind::Status => "status"@,
            EventKind::Watch => "watch"@,
            EventKind::WorkflowCall => "workflow_call"@,
            EventKind::WorkflowDispatch => "workflow_dispatch"@,
            EventKind::WorkflowRun => "workflow_run"@,
        }
    }

    fn name(&self) -> (name: &'static str)
        ensures
            name@ == self.text(),
    {
        match self {
            EventKind::BranchProtectionRule => "branch_protection_rule",
            EventKind::CheckRun => "check_run",
            EventKind::CheckSuite => "check_suite",
            EventKind::Create => "create",
            EventKind::Delete => "delete",
            EventKind::Deployment => "deployment",
            EventKind::DeploymentStatus => "deployment_status",
            EventKind::Discussion => "discussion",
            EventKind::DiscussionComment => "discussion_comment",
            EventKind::Fork => "fork",
            EventKind::Gollum => "gollum",
            EventKind::IssueComment => "issue_comment",
            EventKind::Issues => "issues",
            EventKind::Label => "label",
            EventKind::MergeGroup => "merge_group",
            EventKind::Milestone => "milestone",
            EventKind::PageBuild => "page_build",
            EventKind::Project => "project",
            EventKind::ProjectCard => "project_card",
            EventKind::ProjectColumn => "project_column",
            EventKind::Public => "public",
            EventKind::PullRequest => "pull_request",
            EventKind::PullRequestReview => "pull_request_review",
            EventKind::PullRequestReviewComment => "pull_request_review_comment",
            EventKind::PullRequestTarget => "pull_request_target",
            EventKind::Push => "push",
            EventKind::RegistryPackage => "registry_package",
            EventKind::Release => "release",
            EventKind::RepositoryDispatch => "repository_dispatch",
            EventKind::Schedule => "schedule",
            EventKind::Status => "status",
            EventKind::Watch => "watch",
            EventKind::WorkflowCall => "workflow_call",
            EventKind::WorkflowDispatch => "workflow_dispatch",
            EventKind::WorkflowRun => "workflow_run",
        }
    }

    pub fn to_string(&self) -> (shown: String)
        ensures
            shown@ == self.text(),
    {
        String::from_str(self.name())
    }

    /// Every event, in the order in which names are looked up.
    fn all() -> (kinds: Vec<EventKind>)
        ensures
            kinds@ == event_kinds(),
    {
        let kinds = vec![
            EventKind::BranchProtectionRule,
            EventKind::CheckRun,
            EventKind::CheckSuite,
            EventKind::Create,
            EventKind::Delete,
            EventKind::Deployment,
            EventKind::DeploymentStatus,
            EventKind::Discussion,
            EventKind::DiscussionComment,
            EventKind::Fork,
            EventKind::Gollum,
            EventKind::IssueComment,
            EventKind::Issues,
            EventKind::Label,
            EventKind::MergeGroup,
            EventKind::Milestone,
            EventKind::PageBuild,
            EventKind::Project,
            EventKind::ProjectCard,
            EventKind::ProjectColumn,
            EventKind::Public,
            EventKind::PullRequest,
            EventKind::PullRequestReview,
            EventKind::PullRequestReviewComment,
            EventKind::PullRequestTarget,
            EventKind::Push,
            EventKind::RegistryPackage,
            EventKind::Release,
            EventKind::RepositoryDispatch,
            EventKind::Schedule,
            EventKind::Status,
            EventKind::Watch,
            EventKind::WorkflowCall,
            EventKind::WorkflowDispatch,
            EventKind::WorkflowRun,
        ];
        assert(kinds@ =~= event_kinds());
        kinds
    }

    /// Looks an event up by its name. A name that belongs to no event is
    /// handed back in the error.
    pub fn fromstr(raw: &str) -> (found: Result<EventKind, BadEvent>)
        ensures
            match found {
                Ok(kind) => event_named(raw@) == Some(kind),
                Err(BadEvent::Unknown(name)) => event_named(raw@) is None && name@ == raw@,
            },
    {
        let kinds = EventKind::all();
        let mut i: usize = 0;
        while i < kinds.len()
            invariant
                kinds@ == event_kinds(),
                0 <= i <= kinds@.len(),
                event_named(raw@) == event_named_from(event_kinds(), raw@, i as int),
            decreases kinds@.len() - i,
        {
            if same_text(kinds[i].name(), raw) {
                return Ok(kinds[i]);
            }
            i += 1;
        }
        Err(BadEvent::Unknown(String::from_str(raw)))
    }
}

/// An input that a workflow takes when it is called or dispatched.
#[derive(Debug)]
pub struct WorkflowInput {
    pub description: Option<PossumNode<String>>,
    pub default: Option<PossumNode<WorkflowInputDefault>>,
    pub required: Option<PossumNode<bool>>,
    pub input_type: Option<PossumNode<WorkflowInputType>>,
    pub choices: Option<PossumNode<PossumSeq<String>>>,
}

impl WorkflowInput {
    /// The input of which no field has been met.
    pub open spec fn blank() -> WorkflowInput {
        WorkflowInput {
            description: None,
            default: None,
            required: None,
            input_type: None,
            choices: None,
        }
    }
}

impl Default for WorkflowInput {
    fn default() -> (input: WorkflowInput)
        ensures
            input == WorkflowInput::blank(),
    {
        WorkflowInput {
            description: None,
            default: None,
            required: None,
            input_type: None,
            choices: None,
        }
    }
}

/// The value that an input has when none is given.
#[derive(Debug)]
pub enum WorkflowInputDefault {
    Str(String),
    Number(Number),
    Bool(bool),
}

/// The type of value that an input takes.
#[derive(Debug, Copy, Clone, PartialEq, Eq, Structural)]
pub enum WorkflowInputType {
    Str,
    Number,
    Bool,
    Choice,
}

/// The type of input that is named `raw`, if there is one.
pub open spec fn input_type_named(raw: Seq<char>) -> Option<WorkflowInputType> {
    if raw == "Str"@ {
        Some(WorkflowInputType::Str)
    } else if raw == "Number"@ {
        Some(WorkflowInputType::Number)
    } else if raw == "Bool"@ {
        Some(WorkflowInputType::Bool)
    } else if raw == "Choice"@ {
        Some(WorkflowInputType::Choice)
    } else {
        None
    }
}

impl WorkflowInputType {
    /// Looks a type of input up by its name. A name that belongs to none is
    /// handed back in the error.
    pub fn fromstr(raw: &str) -> (found: Result<WorkflowInputType, BadInputType>)
        ensures
            match found {
                Ok(input_type) => input_type_named(raw@) == Some(input_type),
                Err(BadInputType::Unknown(name)) => input_type_named(raw@) is None && name@
                    == raw@,
            },
    {
        if same_text(raw, "Str") {
            Ok(WorkflowInputType::Str)
        } else if same_text(raw, "Number") {
            Ok(WorkflowInputType::Number)
        } else if same_text(raw, "Bool") {
            Ok(WorkflowInputType::Bool)
        } else if same_text(raw, "Choice") {
            Ok(WorkflowInputType::Choice)
        } else {
            Err(BadInputType::Unknown(String::from_str(raw)))
        }
    }
}

/// An output that a called workflow hands back.
#[derive(Debug)]
pub struct WorkflowOutput {
    pub description: Option<PossumNode<String>>,
    pub value: Option<PossumNode<String>>,
}

impl WorkflowOutput {
    /// The output of which no field has been met.
    pub open spec fn blank() -> WorkflowOutput {
        WorkflowOutput { description: None, value: None }
    }
}

impl Default for WorkflowOutput {
    fn default() -> (output: WorkflowOutput)
        ensures
            output == WorkflowOutput::blank(),
    {
        WorkflowOutput { description: None, value: None }
    }
}

/// A secret that a called workflow takes from its caller.
#[derive(Debug)]
pub struct InheritedSecret {
    pub description: Option<PossumNode<String>>,
    pub required: Option<PossumNode<bool>>,
}

impl InheritedSecret {
    /// The secret of which no field has been met.
    pub open spec fn blank() -> InheritedSecret {
        InheritedSecret { description: None, required: None }
    }
}

impl Default for InheritedSecret {
    fn default() -> (secret: InheritedSecret)
        ensures
            secret == InheritedSecret::blank(),
    {
        InheritedSecret { description: None, required: None }
    }
}

/// A name where an event was expected.
#[derive(Debug)]
pub enum BadEvent {
    Unknown(String),
}

/// The message for the name `name`, which belongs to no event.
pub open spec fn unknown_event_text(name: Seq<char>) -> Seq<char> {
    "unknown event "@ + name
}

impl BadEvent {
    pub fn to_string(&self) -> (shown: String)
        ensures
            self matches BadEvent::Unknown(name) && shown@ == unknown_event_text(name@),
    {
        match self {
            BadEvent::Unknown(s) => String::from_str("unknown event ").concat(s.as_str()),
        }
    }
}

/// A name where a type of input was expected.
#[derive(Debug)]
pub enum BadInputType {
    Unknown(String),
}

/// The message for the name `name`, which belongs to no type of input.
pub open spec fn unknown_input_type_text(name: Seq<char>) -> Seq<char> {
    "unknown input type "@ + name
}

impl BadInputType {
    pub fn to_string(&self) -> (shown: String)
        ensures
            self matches BadInputType::Unknown(name) && shown@ == unknown_input_type_text(name@),
    {
        match self {
            BadInputType::Unknown(s) => String::from_str("unknown input type ").concat(
                s.as_str(),
            ),
        }
    }
}

} // verus!
