use possum::project::{InitFailure, InitFailureReason, ProjectRoot};
use possum::workflow::event::bodies::{PullRequest, Push, WorkflowCall, WorkflowDispatch, WorkflowRun};
use possum::workflow::event::{ActivityType, ActivityTypes, Error, Event, EventName};

fn activity(name: &str) -> ActivityType {
    ActivityType::new(name.to_string())
}

fn holds(types: &ActivityTypes, names: &[&str]) -> bool {
    types.len() == names.len() && names.iter().all(|name| types.contains(&activity(name)))
}

#[test]
fn a_set_of_activity_types_holds_no_name_twice() {
    let mut types = ActivityTypes::new();
    assert_eq!(types.len(), 0);
    assert!(!types.contains(&activity("opened")));
    assert!(types.insert(activity("opened")));
    assert!(types.insert(activity("closed")));
    assert!(!types.insert(activity("opened")));
    assert_eq!(types.len(), 2);
    assert!(types.contains(&activity("opened")));
    assert!(types.contains(&activity("closed")));
    assert!(!types.contains(&activity("Opened")));
}

#[test]
fn default_activity_types_of_each_event() {
    assert!(holds(
        &Event::default_activity_types("branch_protection_rule"),
        &["created", "edited", "deleted"]
    ));
    assert!(holds(
        &Event::default_activity_types("check_run"),
        &["created", "requested", "completed", "requested_action"]
    ));
    assert!(holds(&Event::default_activity_types("check_suite"), &["completed"]));
    assert!(holds(&Event::default_activity_types("merge_group"), &["checks_requested"]));
    assert!(holds(&Event::default_activity_types("watch"), &["started"]));
    assert!(holds(
        &Event::default_activity_types("workflow_run"),
        &["completed", "requested", "in_progress"]
    ));
    assert!(holds(&Event::default_activity_types("registry_package"), &["published", "updated"]));
    assert_eq!(Event::default_activity_types("discussion").len(), 13);
    assert_eq!(Event::default_activity_types("issues").len(), 16);
    assert_eq!(Event::default_activity_types("release").len(), 7);
    assert_eq!(Event::default_activity_types("pull_request").len(), 17);
    assert_eq!(Event::default_activity_types("pull_request_target").len(), 17);
    assert!(Event::default_activity_types("pull_request").contains(&activity("synchronize")));
}

#[test]
fn default_activity_types_do_not_mind_the_case_of_the_name() {
    assert!(holds(&Event::default_activity_types("Label"), &["created", "edited", "deleted"]));
    assert!(holds(&Event::default_activity_types("WATCH"), &["started"]));
}

#[test]
fn an_event_without_activity_types_has_no_defaults() {
    for name in ["push", "create", "fork", "schedule", "no such event", ""] {
        assert_eq!(Event::default_activity_types(name).len(), 0);
    }
    assert_eq!(Event::defaults_for("Label").len(), 0);
    assert_eq!(Event::defaults_for("label").len(), 3);
}

#[test]
fn an_event_is_found_by_its_name_in_any_case() {
    assert!(matches!(Event::from_str("create"), Ok(Event::Create)));
    assert!(matches!(Event::from_str("Delete"), Ok(Event::Delete)));
    assert!(matches!(Event::from_str("PAGE_BUILD"), Ok(Event::PageBuild)));
    assert!(matches!(Event::from_str("status"), Ok(Event::Status)));
    match Event::from_str("Issue_Comment") {
        Ok(Event::IssueComment(types)) => assert!(holds(&types, &["created", "edited", "deleted"])),
        other => panic!("{:?}", other),
    }
    match Event::from_str("repository_dispatch") {
        Ok(Event::RepositoryDispatch(types)) => assert_eq!(types.len(), 0),
        other => panic!("{:?}", other),
    }
    match Event::from_str("pull_request_target") {
        Ok(Event::PullRequestTarget(body)) => {
            assert!(body.branches.is_empty() && body.paths.is_empty());
            assert_eq!(body.types.len(), 17);
        }
        other => panic!("{:?}", other),
    }
    match Event::from_str("push") {
        Ok(Event::Push(body)) => {
            assert!(body.tags.is_empty() && body.ignored_tags.is_empty());
            assert_eq!(body.types.len(), 0);
        }
        other => panic!("{:?}", other),
    }
    assert!(matches!(Event::from_str("workflow_call"), Ok(Event::WorkflowCall(_))));
    assert!(matches!(Event::from_str("workflow_dispatch"), Ok(Event::WorkflowDispatch(_))));
}

#[test]
fn an_event_is_found_by_its_name_in_lower_case() {
    assert!(matches!(Event::from_lowered("create"), Ok(Event::Create)));
    assert!(matches!(Event::from_lowered("page_build"), Ok(Event::PageBuild)));
    match Event::from_lowered("label") {
        Ok(Event::Label(types)) => assert!(holds(&types, &["created", "edited", "deleted"])),
        other => panic!("{:?}", other),
    }
    match Event::from_lowered("workflow_call") {
        Ok(Event::WorkflowCall(body)) => {
            assert!(body.inputs.is_empty() && body.outputs.is_empty() && body.secrets.is_empty())
        }
        other => panic!("{:?}", other),
    }
    match Event::from_lowered("workflow_dispatch") {
        Ok(Event::WorkflowDispatch(body)) => assert!(body.inputs.is_empty()),
        other => panic!("{:?}", other),
    }
    match Event::from_lowered("schedule") {
        Err(Error::CannotUseStringDeclaration(event)) => assert_eq!(event.to_string(), "schedule"),
        other => panic!("{:?}", other),
    }
    for name in ["Create", "PUSH", "rain", ""] {
        match Event::from_lowered(name) {
            Err(Error::UnknownEvent(event)) => assert_eq!(event.to_string(), name),
            other => panic!("{:?}", other),
        }
    }
}

#[test]
fn some_events_cannot_be_written_as_a_name_alone() {
    for name in ["schedule", "workflow_run", "Schedule"] {
        match Event::from_str(name) {
            Err(Error::CannotUseStringDeclaration(event)) => {
                assert_eq!(event.to_string(), name.to_lowercase())
            }
            other => panic!("{:?}", other),
        }
    }
}

#[test]
fn a_name_of_no_event_is_refused_in_lower_case() {
    match Event::from_str("Rain") {
        Err(Error::UnknownEvent(event)) => assert_eq!(event.to_string(), "rain"),
        other => panic!("{:?}", other),
    }
    assert!(matches!(Event::from_str(""), Err(Error::UnknownEvent(_))));
    assert!(matches!(Event::from_str("pull-request"), Err(Error::UnknownEvent(_))));
}

#[test]
fn every_event_has_its_name() {
    let names = [
        "branch_protection_rule",
        "check_run",
        "check_suite",
        "create",
        "delete",
        "deployment",
        "deployment_status",
        "discussion",
        "discussion_comment",
        "fork",
        "gollum",
        "issue_comment",
        "issues",
        "label",
        "merge_group",
        "milestone",
        "page_build",
        "project",
        "project_card",
        "project_column",
        "public",
        "pull_request",
        "pull_request_review",
        "pull_request_review_comment",
        "pull_request_target",
        "push",
        "registry_package",
        "release",
        "repository_dispatch",
        "status",
        "watch",
        "workflow_call",
        "workflow_dispatch",
    ];
    for name in names {
        let event = Event::from_str(name).unwrap();
        assert_eq!(event.to_event_name().to_string(), name);
        assert_eq!(event.to_string(), name);
    }
    assert_eq!(Event::Schedule(vec![]).to_string(), "schedule");
    assert_eq!(Event::WorkflowRun(WorkflowRun::default()).to_string(), "workflow_run");
    assert_eq!(Event::Unknown("Rain".to_string()).to_string(), "Rain");
}

#[test]
fn default_bodies_are_narrowed_by_nothing() {
    let pull_request = PullRequest::default();
    assert!(pull_request.branches.is_empty() && pull_request.ignored_paths.is_empty());
    assert_eq!(pull_request.types.len(), 17);
    let push = Push::default();
    assert!(push.branches.is_empty() && push.types.len() == 0);
    let call = WorkflowCall::default();
    assert!(call.inputs.is_empty() && call.outputs.is_empty() && call.secrets.is_empty());
    assert!(WorkflowDispatch::default().inputs.is_empty());
    let run = WorkflowRun::default();
    assert!(run.workflows.is_empty() && run.types.len() == 0);
}

#[test]
fn errors_are_shown_with_the_name_they_are_about() {
    assert_eq!(
        Error::CannotUseStringDeclaration(EventName::of("schedule")).to_string(),
        "Cannot use string only declaration for schedule"
    );
    assert_eq!(
        Error::DoesNotAcceptType(EventName::new("push".to_string()), activity("opened"))
            .to_string(),
        "push does not accept activity opened"
    );
    assert_eq!(
        Error::UnknownEvent(EventName::of("rain")).to_string(),
        "Possum doesn't know about event rain"
    );
    assert_eq!(activity("opened").to_string(), "opened");
}

#[test]
fn a_failure_to_make_a_project_names_the_path_and_the_reason() {
    let failure = InitFailure::no_workflows("repo/.github/workflows".to_string());
    assert_eq!(failure.reason, InitFailureReason::NoWorkflows);
    assert_eq!(failure.to_string(), "repo/.github/workflows: no workflows found in directory");
    assert_eq!(
        InitFailure::dir_not_found("x".to_string()).to_string(),
        "x: directory not found"
    );
    assert_eq!(InitFailure::not_dir("y".to_string()).to_string(), "y: not a directory");
    assert_eq!(InitFailureReason::NotADirectory.to_string(), "not a directory");
}

#[test]
fn a_project_root_is_shown_as_its_directory() {
    assert_eq!(ProjectRoot::WorkingDirectory.to_string(), ".");
    assert_eq!(ProjectRoot::Explicit("repo".to_string()).to_string(), "repo");
}
