//! Events by name: which event a name stands for, what the name of an event
//! is, and which types of activity an event answers to when none are named.
use super::bodies::{PullRequest, Push, Schedule, WorkflowCall, WorkflowDispatch, WorkflowRun};
use super::{ActivityType, ActivityTypes, Error, EventName};
use crate::text::{lowercase, lowercased, same_text};
use vstd::prelude::*;

verus! {

/// An event that makes a workflow run, with what it is narrowed by.
#[derive(Debug)]
pub enum Event {
    BranchProtectionRule(ActivityTypes),
    CheckRun(ActivityTypes),
    CheckSuite(ActivityTypes),
    Create,
    Delete,
    Deployment,
    DeploymentStatus,
    Discussion(ActivityTypes),
    DiscussionComment(ActivityTypes),
    Fork,
    Gollum,
    IssueComment(ActivityTypes),
    Issues(ActivityTypes),
    Label(ActivityTypes),
    MergeGroup(ActivityTypes),
    Milestone(ActivityTypes),
    PageBuild,
    Project(ActivityTypes),
    ProjectCard(ActivityTypes),
    ProjectColumn(ActivityTypes),
    Public,
    PullRequest(PullRequest),
    PullRequestReview(ActivityTypes),
    PullRequestReviewComment(ActivityTypes),
    PullRequestTarget(PullRequest),
    Push(Push),
    RegistryPackage(ActivityTypes),
    Release(ActivityTypes),
    RepositoryDispatch(ActivityTypes),
    Schedule(Vec<Schedule>),
    Status,
    Watch(ActivityTypes),
    WorkflowCall(WorkflowCall),
    WorkflowDispatch(WorkflowDispatch),
    WorkflowRun(WorkflowRun),
    Unknown(String),
}

/// The types of activity that the event named `name` answers to when none
/// are named, in the order in which they are listed. An event that is not
/// narrowed by types of activity has none.
pub open spec fn default_activities(name: Seq<char>) -> Seq<Seq<char>> {
    if name == "branch_protection_rule"@ {
        seq!["created"@, "edited"@, "deleted"@]
    } else if name == "check_run"@ {
        seq!["created"@, "requested"@, "completed"@, "requested_action"@]
    } else if name == "check_suite"@ {
        seq!["completed"@]
    } else if name == "discussion"@ {
        seq!["created"@, "edited"@, "deleted"@, "transferred"@, "pinned"@, "unpinned"@, "labeled"@, "unlabeled"@, "locked"@, "unlocked"@, "category_changed"@, "answered"@, "unanswered"@]
    } else if name == "discussion_comment"@ {
        seq!["created"@, "edited"@, "deleted"@]
    } else if name == "issue_comment"@ {
        seq!["created"@, "edited"@, "deleted"@]
    } else if name == "issues"@ {
        seq!["opened"@, "edited"@, "deleted"@, "transferred"@, "pinned"@, "unpinned"@, "closed"@, "reopened"@, "assigned"@, "unassigned"@, "labeled"@, "unlabeled"@, "locked"@, "unlocked"@, "milestoned"@, "demilestoned"@]
    } else if name == "label"@ {
        seq!["created"@, "edited"@, "deleted"@]
    } else if name == "merge_group"@ {
        seq!["checks_requested"@]
    } else if name == "milestone"@ {
        seq!["created"@, "closed"@, "opened"@, "edited"@, "deleted"@]
    } else if name == "project"@ {
        seq!["created"@, "closed"@, "reopened"@, "edited"@, "deleted"@]
    } else if name == "project_card"@ {
        seq!["created"@, "moved"@, "converted"@, "edited"@, "deleted"@]
    } else if name == "project_column"@ {
        seq!["created"@, "updated"@, "moved"@, "deleted"@]
    } else if name == "pull_request"@ {
        seq!["assigned"@, "unassigned"@, "labeled"@, "unlabeled"@, "opened"@, "edited"@, "closed"@, "reopened"@, "synchronize"@, "converted_to_draft"@, "ready_for_review"@, "locked"@, "unlocked"@, "review_requested"@, "review_request_removed"@, "auto_merge_enabled"@, "auto_merge_disabled"@]
    } else if name == "pull_request_target"@ {
        seq!["assigned"@, "unassigned"@, "labeled"@, "unlabeled"@, "opened"@, "edited"@, "closed"@, "reopened"@, "synchronize"@, "converted_to_draft"@, "ready_for_review"@, "locked"@, "unlocked"@, "review_requested"@, "review_request_removed"@, "auto_merge_enabled"@, "auto_merge_disabled"@]
    } else if name == "pull_request_review"@ {
        seq!["submitted"@, "edited"@, "dismissed"@]
    } else if name == "pull_request_review_comment"@ {
        seq!["created"@, "edited"@, "deleted"@]
    } else if name == "registry_package"@ {
        seq!["published"@, "updated"@]
    } else if name == "release"@ {
        seq!["published"@, "unpublished"@, "created"@, "edited"@, "deleted"@, "prereleased"@, "released"@]
    } else if name == "watch"@ {
        seq!["started"@]
    } else if name == "workflow_run"@ {
        seq!["completed"@, "requested"@, "in_progress"@]
    } else {
        Seq::empty()
    }
}

/// The set of a sequence with one more element is the set of the sequence
/// with that element put in.
pub proof fn lemma_to_set_push(names: Seq<Seq<char>>, name: Seq<char>)
    ensures
        names.push(name).to_set() == names.to_set().insert(name),
{
    let after = names.push(name);
    assert forall|other: Seq<char>| after.to_set().contains(other) implies names.to_set().insert(
        name,
    ).contains(other) by {
        let at = choose|at: int| 0 <= at < after.len() && after[at] == other;
        if at < names.len() {
            assert(names[at] == other);
        }
    }
    assert forall|other: Seq<char>| names.to_set().insert(name).contains(
        other,
    ) implies after.to_set().contains(other) by {
        if other == name {
            assert(after[names.len() as int] == other);
        } else {
            let at = choose|at: int| 0 <= at < names.len() && names[at] == other;
            assert(after[at] == other);
        }
    }
    assert(after.to_set() =~= names.to_set().insert(name));
}

/// The names of `listed`, as plain text.
pub open spec fn named(listed: Seq<&'static str>) -> Seq<Seq<char>> {
    listed.map_values(|name: &'static str| name@)
}

impl Event {
    /// The name of an event as a workflow writes it. An unknown event keeps
    /// the name it was given.
    pub open spec fn name_text(self) -> Seq<char> {
        match self {
            Event::BranchProtectionRule(_) => "branch_protection_rule"@,
            Event::CheckRun(_) => "check_run"@,
            Event::CheckSuite(_) => "check_suite"@,
            Event::Create => "create"@,
            Event::Delete => "delete"@,
            Event::Deployment => "deployment"@,
            Event::DeploymentStatus => "deployment_status"@,
            Event::Discussion(_) => "discussion"@,
            Event::DiscussionComment(_) => "discussion_comment"@,
            Event::Fork => "fork"@,
            Event::Gollum => "gollum"@,
            Event::IssueComment(_) => "issue_comment"@,
            Event::Issues(_) => "issues"@,
            Event::Label(_) => "label"@,
            Event::MergeGroup(_) => "merge_group"@,
            Event::Milestone(_) => "milestone"@,
            Event::PageBuild => "page_build"@,
            Event::Project(_) => "project"@,
            Event::ProjectCard(_) => "project_card"@,
            Event::ProjectColumn(_) => "project_column"@,
            Event::Public => "public"@,
            Event::PullRequest(_) => "pull_request"@,
            Event::PullRequestReview(_) => "pull_request_review"@,
            Event::PullRequestReviewComment(_) => "pull_request_review_comment"@,
            Event::PullRequestTarget(_) => "pull_request_target"@,
            Event::Push(_) => "push"@,
            Event::RegistryPackage(_) => "registry_package"@,
            Event::Release(_) => "release"@,
            Event::RepositoryDispatch(_) => "repository_dispatch"@,
            Event::Schedule(_) => "schedule"@,
            Event::Status => "status"@,
            Event::Watch(_) => "watch"@,
            Event::WorkflowCall(_) => "workflow_call"@,
            Event::WorkflowDispatch(_) => "workflow_dispatch"@,
            Event::WorkflowRun(_) => "workflow_run"@,
            Event::Unknown(name) => name@,
        }
    }

    /// The names of the types of activity that the event named `lower`
    /// answers to when none are named.
    fn listed_activities(lower: &str) -> (listed: Vec<&'static str>)
        ensures
            named(listed@) == default_activities(lower@),
    {
        if same_text(lower, "branch_protection_rule") {
            let listed = vec!["created", "edited", "deleted"];
            assert(named(listed@) =~= seq!["created"@, "edited"@, "deleted"@]);
            listed
        } else if same_text(lower, "check_run") {
            let listed = vec!["created", "requested", "completed", "requested_action"];
            assert(named(listed@) =~= seq!["created"@, "requested"@, "completed"@, "requested_action"@]);
            listed
        } else if same_text(lower, "check_suite") {
            let listed = vec!["completed"];
            assert(named(listed@) =~= seq!["completed"@]);
            listed
        } else if same_text(lower, "discussion") {
            let listed = vec!["created", "edited", "deleted", "transferred", "pinned", "unpinned", "labeled", "unlabeled", "locked", "unlocked", "category_changed", "answered", "unanswered"];
            assert(named(listed@) =~= seq!["created"@, "edited"@, "deleted"@, "transferred"@, "pinned"@, "unpinned"@, "labeled"@, "unlabeled"@, "locked"@, "unlocked"@, "category_changed"@, "answered"@, "unanswered"@]);
            listed
        } else if same_text(lower, "discussion_comment") {
            let listed = vec!["created", "edited", "deleted"];
            assert(named(listed@) =~= seq!["created"@, "edited"@, "deleted"@]);
            listed
        } else if same_text(lower, "issue_comment") {
            let listed = vec!["created", "edited", "deleted"];
            assert(named(listed@) =~= seq!["created"@, "edited"@, "deleted"@]);
            listed
        } else if same_text(lower, "issues") {
            let listed = vec!["opened", "edited", "deleted", "transferred", "pinned", "unpinned", "closed", "reopened", "assigned", "unassigned", "labeled", "unlabeled", "locked", "unlocked", "milestoned", "demilestoned"];
            assert(named(listed@) =~= seq!["opened"@, "edited"@, "deleted"@, "transferred"@, "pinned"@, "unpinned"@, "closed"@, "reopened"@, "assigned"@, "unassigned"@, "labeled"@, "unlabeled"@, "locked"@, "unlocked"@, "milestoned"@, "demilestoned"@]);
            listed
        } else if same_text(lower, "label") {
            let listed = vec!["created", "edited", "deleted"];
            assert(named(listed@) =~= seq!["created"@, "edited"@, "deleted"@]);
            listed
        } else if same_text(lower, "merge_group") {
            let listed = vec!["checks_requested"];
            assert(named(listed@) =~= seq!["checks_requested"@]);
            listed
        } else if same_text(lower, "milestone") {
            let listed = vec!["created", "closed", "opened", "edited", "deleted"];
            assert(named(listed@) =~= seq!["created"@, "closed"@, "opened"@, "edited"@, "deleted"@]);
            listed
        } else if same_text(lower, "project") {
            let listed = vec!["created", "closed", "reopened", "edited", "deleted"];
            assert(named(listed@) =~= seq!["created"@, "closed"@, "reopened"@, "edited"@, "deleted"@]);
            listed
        } else if same_text(lower, "project_card") {
            let listed = vec!["created", "moved", "converted", "edited", "deleted"];
            assert(named(listed@) =~= seq!["created"@, "moved"@, "converted"@, "edited"@, "deleted"@]);
            listed
        } else if same_text(lower, "project_column") {
            let listed = vec!["created", "updated", "moved", "deleted"];
            assert(named(listed@) =~= seq!["created"@, "updated"@, "moved"@, "deleted"@]);
            listed
        } else if same_text(lower, "pull_request") {
            let listed = vec!["assigned", "unassigned", "labeled", "unlabeled", "opened", "edited", "closed", "reopened", "synchronize", "converted_to_draft", "ready_for_review", "locked", "unlocked", "review_requested", "review_request_removed", "auto_merge_enabled", "auto_merge_disabled"];
            assert(named(listed@) =~= seq!["assigned"@, "unassigned"@, "labeled"@, "unlabeled"@, "opened"@, "edited"@, "closed"@, "reopened"@, "synchronize"@, "converted_to_draft"@, "ready_for_review"@, "locked"@, "unlocked"@, "review_requested"@, "review_request_removed"@, "auto_merge_enabled"@, "auto_merge_disabled"@]);
            listed
        } else if same_text(lower, "pull_request_target") {
            let listed = vec!["assigned", "unassigned", "labeled", "unlabeled", "opened", "edited", "closed", "reopened", "synchronize", "converted_to_draft", "ready_for_review", "locked", "unlocked", "review_requested", "review_request_removed", "auto_merge_enabled", "auto_merge_disabled"];
            assert(named(listed@) =~= seq!["assigned"@, "unassigned"@, "labeled"@, "unlabeled"@, "opened"@, "edited"@, "closed"@, "reopened"@, "synchronize"@, "converted_to_draft"@, "ready_for_review"@, "locked"@, "unlocked"@, "review_requested"@, "review_request_removed"@, "auto_merge_enabled"@, "auto_merge_disabled"@]);
            listed
        } else if same_text(lower, "pull_request_review") {
            let listed = vec!["submitted", "edited", "dismissed"];
            assert(named(listed@) =~= seq!["submitted"@, "edited"@, "dismissed"@]);
            listed
        } else if same_text(lower, "pull_request_review_comment") {
            let listed = vec!["created", "edited", "deleted"];
            assert(named(listed@) =~= seq!["created"@, "edited"@, "deleted"@]);
            listed
        } else if same_text(lower, "registry_package") {
            let listed = vec!["published", "updated"];
            assert(named(listed@) =~= seq!["published"@, "updated"@]);
            listed
        } else if same_text(lower, "release") {
            let listed = vec!["published", "unpublished", "created", "edited", "deleted", "prereleased", "released"];
            assert(named(listed@) =~= seq!["published"@, "unpublished"@, "created"@, "edited"@, "deleted"@, "prereleased"@, "released"@]);
            listed
        } else if same_text(lower, "watch") {
            let listed = vec!["started"];
            assert(named(listed@) =~= seq!["started"@]);
            listed
        } else if same_text(lower, "workflow_run") {
            let listed = vec!["completed", "requested", "in_progress"];
            assert(named(listed@) =~= seq!["completed"@, "requested"@, "in_progress"@]);
            listed
        } else {
            let listed: Vec<&'static str> = Vec::new();
            assert(named(listed@) =~= Seq::empty());
            listed
        }
    }

    /// The types of activity that the event named `lower` answers to when
    /// none are named. The name is taken as it stands.
    pub fn defaults_for(lower: &str) -> (types: ActivityTypes)
        ensures
            types.wf(),
            types@ == default_activities(lower@).to_set(),
    {
        let listed = Event::listed_activities(lower);
        let mut types = ActivityTypes::new();
        let mut i: usize = 0;
        while i < listed.len()
            invariant
                0 <= i <= listed@.len(),
                types.wf(),
                types@ == named(listed@).take(i as int).to_set(),
            decreases listed@.len() - i,
        {
            let ghost before = named(listed@).take(i as int);
            types.insert(ActivityType::new(String::from_str(listed[i])));
            proof {
                let after = named(listed@).take(i + 1);
                assert(after =~= before.push(listed@[i as int]@));
                lemma_to_set_push(before, listed@[i as int]@);
            }
            i += 1;
        }
        proof {
            assert(named(listed@).take(i as int) =~= named(listed@));
        }
        types
    }

    /// The types of activity that the event named `s`, in whatever case,
    /// answers to when none are named.
    pub fn default_activity_types(s: &str) -> (types: ActivityTypes)
        ensures
            types.wf(),
            types@ == default_activities(lowercased(s@)).to_set(),
    {
        let lower = lowercase(s);
        Event::defaults_for(lower.as_str())
    }

    /// The name of an event as a workflow writes it.
    pub fn to_event_name(&self) -> (name: EventName)
        ensures
            name.0@ == self.name_text(),
    {
        match self {
            Event::BranchProtectionRule(_) => EventName::of("branch_protection_rule"),
            Event::CheckRun(_) => EventName::of("check_run"),
            Event::CheckSuite(_) => EventName::of("check_suite"),
            Event::Create => EventName::of("create"),
            Event::Delete => EventName::of("delete"),
            Event::Deployment => EventName::of("deployment"),
            Event::DeploymentStatus => EventName::of("deployment_status"),
            Event::Discussion(_) => EventName::of("discussion"),
            Event::DiscussionComment(_) => EventName::of("discussion_comment"),
            Event::Fork => EventName::of("fork"),
            Event::Gollum => EventName::of("gollum"),
            Event::IssueComment(_) => EventName::of("issue_comment"),
            Event::Issues(_) => EventName::of("issues"),
            Event::Label(_) => EventName::of("label"),
            Event::MergeGroup(_) => EventName::of("merge_group"),
            Event::Milestone(_) => EventName::of("milestone"),
            Event::PageBuild => EventName::of("page_build"),
            Event::Project(_) => EventName::of("project"),
            Event::ProjectCard(_) => EventName::of("project_card"),
            Event::ProjectColumn(_) => EventName::of("project_column"),
            Event::Public => EventName::of("public"),
            Event::PullRequest(_) => EventName::of("pull_request"),
            Event::PullRequestReview(_) => EventName::of("pull_request_review"),
            Event::PullRequestReviewComment(_) => EventName::of("pull_request_review_comment"),
            Event::PullRequestTarget(_) => EventName::of("pull_request_target"),
            Event::Push(_) => EventName::of("push"),
            Event::RegistryPackage(_) => EventName::of("registry_package"),
            Event::Release(_) => EventName::of("release"),
            Event::RepositoryDispatch(_) => EventName::of("repository_dispatch"),
            Event::Schedule(_) => EventName::of("schedule"),
            Event::Status => EventName::of("status"),
            Event::Watch(_) => EventName::of("watch"),
            Event::WorkflowCall(_) => EventName::of("workflow_call"),
            Event::WorkflowDispatch(_) => EventName::of("workflow_dispatch"),
            Event::WorkflowRun(_) => EventName::of("workflow_run"),
            Event::Unknown(s) => EventName::new(s.clone()),
        }
    }

    pub fn to_string(&self) -> (shown: String)
        ensures
            shown@ == self.name_text(),
    {
        self.to_event_name().to_string()
    }

    /// Whether `found` is what the lower-cased name `lower` stands for when
    /// an event is written as a name alone. An event that is narrowed by
    /// types of activity answers to its default types, and one that is
    /// narrowed otherwise is narrowed by nothing. A schedule and a workflow
    /// run cannot be written as a name alone, and a name that belongs to no
    /// event is refused.
    pub open spec fn named_alone(lower: Seq<char>, found: Result<Event, Error>) -> bool {
        if lower == "branch_protection_rule"@ {
            found matches Ok(Event::BranchProtectionRule(types)) && types.wf() && types@ == default_activities(
                lower,
            ).to_set()
        } else if lower == "check_run"@ {
            found matches Ok(Event::CheckRun(types)) && types.wf() && types@ == default_activities(
                lower,
            ).to_set()
        } else if lower == "check_suite"@ {
            found matches Ok(Event::CheckSuite(types)) && types.wf() && types@ == default_activities(
                lower,
            ).to_set()
        } else if lower == "create"@ {
            found matches Ok(Event::Create)
        } else if lower == "delete"@ {
            found matches Ok(Event::Delete)
        } else if lower == "deployment"@ {
            found matches Ok(Event::Deployment)
        } else if lower == "deployment_status"@ {
            found matches Ok(Event::DeploymentStatus)
        } else if lower == "discussion"@ {
            found matches Ok(Event::Discussion(types)) && types.wf() && types@ == default_activities(
                lower,
            ).to_set()
        } else if lower == "discussion_comment"@ {
            found matches Ok(Event::DiscussionComment(types)) && types.wf() && types@ == default_activities(
                lower,
            ).to_set()
        } else if lower == "fork"@ {
            found matches Ok(Event::Fork)
        } else if lower == "gollum"@ {
            found matches Ok(Event::Gollum)
        } else if lower == "issue_comment"@ {
            found matches Ok(Event::IssueComment(types)) && types.wf() && types@ == default_activities(
                lower,
            ).to_set()
        } else if lower == "issues"@ {
            found matches Ok(Event::Issues(types)) && types.wf() && types@ == default_activities(
                lower,
            ).to_set()
        } else if lower == "label"@ {
            found matches Ok(Event::Label(types)) && types.wf() && types@ == default_activities(
                lower,
            ).to_set()
        } else if lower == "merge_group"@ {
            found matches Ok(Event::MergeGroup(types)) && types.wf() && types@ == default_activities(
                lower,
            ).to_set()
        } else if lower == "milestone"@ {
            found matches Ok(Event::Milestone(types)) && types.wf() && types@ == default_activities(
                lower,
            ).to_set()
        } else if lower == "page_build"@ {
            found matches Ok(Event::PageBuild)
        } else if lower == "project"@ {
            found matches Ok(Event::Project(types)) && types.wf() && types@ == default_activities(
                lower,
            ).to_set()
        } else if lower == "project_card"@ {
            found matches Ok(Event::ProjectCard(types)) && types.wf() && types@ == default_activities(
                lower,
            ).to_set()
        } else if lower == "project_column"@ {
            found matches Ok(Event::ProjectColumn(types)) && types.wf() && types@ == default_activities(
                lower,
            ).to_set()
        } else if lower == "public"@ {
            found matches Ok(Event::Public)
        } else if lower == "pull_request"@ {
            found matches Ok(Event::PullRequest(body)) && body.is_default()
        } else if lower == "pull_request_review"@ {
            found matches Ok(Event::PullRequestReview(types)) && types.wf() && types@ == default_activities(
                lower,
            ).to_set()
        } else if lower == "pull_request_review_comment"@ {
            found matches Ok(Event::PullRequestReviewComment(types)) && types.wf() && types@ == default_activities(
                lower,
            ).to_set()
        } else if lower == "pull_request_target"@ {
            found matches Ok(Event::PullRequestTarget(body)) && body.is_default()
        } else if lower == "push"@ {
            found matches Ok(Event::Push(body)) && body.is_default()
        } else if lower == "registry_package"@ {
            found matches Ok(Event::RegistryPackage(types)) && types.wf() && types@ == default_activities(
                lower,
            ).to_set()
        } else if lower == "release"@ {
            found matches Ok(Event::Release(types)) && types.wf() && types@ == default_activities(
                lower,
            ).to_set()
        } else if lower == "repository_dispatch"@ {
            found matches Ok(Event::RepositoryDispatch(types)) && types.wf() && types@ == default_activities(
                lower,
            ).to_set()
        } else if lower == "schedule"@ {
            found matches Err(Error::CannotUseStringDeclaration(name)) && name.0@ == lower
        } else if lower == "status"@ {
            found matches Ok(Event::Status)
        } else if lower == "watch"@ {
            found matches Ok(Event::Watch(types)) && types.wf() && types@ == default_activities(
                lower,
            ).to_set()
        } else if lower == "workflow_call"@ {
            found matches Ok(Event::WorkflowCall(body)) && body.is_default() && body.wf()
        } else if lower == "workflow_dispatch"@ {
            found matches Ok(Event::WorkflowDispatch(body)) && body.is_default() && body.wf()
        } else if lower == "workflow_run"@ {
            found matches Err(Error::CannotUseStringDeclaration(name)) && name.0@ == lower
        } else {
            found matches Err(Error::UnknownEvent(name)) && name.0@ == lower
        }
    }

    /// The event that the name `s` stands for, in whatever case, when it is
    /// written as a name alone.
    pub fn from_str(s: &str) -> (found: Result<Event, Error>)
        ensures
            Event::named_alone(lowercased(s@), found),
    {
        let lower = lowercase(s);
        Event::from_lowered(lower.as_str())
    }

    /// The event that the name `lower`, given in lower case, stands for when
    /// it is written as a name alone.
    pub fn from_lowered(lower: &str) -> (found: Result<Event, Error>)
        ensures
            Event::named_alone(lower@, found),
    {
        let default_activity_types = Event::defaults_for(lower);
        if same_text(lower, "branch_protection_rule") {
            Ok(Event::BranchProtectionRule(default_activity_types))
        } else if same_text(lower, "check_run") {
            Ok(Event::CheckRun(default_activity_types))
        } else if same_text(lower, "check_suite") {
            Ok(Event::CheckSuite(default_activity_types))
        } else if same_text(lower, "create") {
            Ok(Event::Create)
        } else if same_text(lower, "delete") {
            Ok(Event::Delete)
        } else if same_text(lower, "deployment") {
            Ok(Event::Deployment)
        } else if same_text(lower, "deployment_status") {
            Ok(Event::DeploymentStatus)
        } else if same_text(lower, "discussion") {
            Ok(Event::Discussion(default_activity_types))
        } else if same_text(lower, "discussion_comment") {
            Ok(Event::DiscussionComment(default_activity_types))
        } else if same_text(lower, "fork") {
            Ok(Event::Fork)
        } else if same_text(lower, "gollum") {
            Ok(Event::Gollum)
        } else if same_text(lower, "issue_comment") {
            Ok(Event::IssueComment(default_activity_types))
        } else if same_text(lower, "issues") {
            Ok(Event::Issues(default_activity_types))
        } else if same_text(lower, "label") {
            Ok(Event::Label(default_activity_types))
        } else if same_text(lower, "merge_group") {
            Ok(Event::MergeGroup(default_activity_types))
        } else if same_text(lower, "milestone") {
            Ok(Event::Milestone(default_activity_types))
        } else if same_text(lower, "page_build") {
            Ok(Event::PageBuild)
        } else if same_text(lower, "project") {
            Ok(Event::Project(default_activity_types))
        } else if same_text(lower, "project_card") {
            Ok(Event::ProjectCard(default_activity_types))
        } else if same_text(lower, "project_column") {
            Ok(Event::ProjectColumn(default_activity_types))
        } else if same_text(lower, "public") {
            Ok(Event::Public)
        } else if same_text(lower, "pull_request") {
            Ok(Event::PullRequest(PullRequest::default()))
        } else if same_text(lower, "pull_request_review") {
            Ok(Event::PullRequestReview(default_activity_types))
        } else if same_text(lower, "pull_request_review_comment") {
            Ok(Event::PullRequestReviewComment(default_activity_types))
        } else if same_text(lower, "pull_request_target") {
            Ok(Event::PullRequestTarget(PullRequest::default()))
        } else if same_text(lower, "push") {
            Ok(Event::Push(Push::default()))
        } else if same_text(lower, "registry_package") {
            Ok(Event::RegistryPackage(default_activity_types))
        } else if same_text(lower, "release") {
            Ok(Event::Release(default_activity_types))
        } else if same_text(lower, "repository_dispatch") {
            Ok(Event::RepositoryDispatch(default_activity_types))
        } else if same_text(lower, "schedule") {
            Err(Error::CannotUseStringDeclaration(EventName::of(lower)))
        } else if same_text(lower, "status") {
            Ok(Event::Status)
        } else if same_text(lower, "watch") {
            Ok(Event::Watch(default_activity_types))
        } else if same_text(lower, "workflow_call") {
            Ok(Event::WorkflowCall(WorkflowCall::default()))
        } else if same_text(lower, "workflow_dispatch") {
            Ok(Event::WorkflowDispatch(WorkflowDispatch::default()))
        } else if same_text(lower, "workflow_run") {
            Err(Error::CannotUseStringDeclaration(EventName::of(lower)))
        } else {
            Err(Error::UnknownEvent(EventName::of(lower)))
        }
    }
}

} // verus!
