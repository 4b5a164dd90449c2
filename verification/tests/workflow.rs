use possum::document::{
    Annotation, AnnotationLevel, Annotations, AsDocumentPointer, Document, DocumentPointer,
};
use possum::lint::{LintRule, LintViolation};
use possum::scavenge::ast::{PossumNode, PossumNodeKind};
use possum::scavenge::extraction::Number;
use possum::scavenge::yaml::{Yaml, YamlNode};
use possum::scavenge::{parse_single_document, ParseFailure, Parser};
use possum::workflow::job::{Environment, Job, MatrixInput};
use possum::workflow::lints::jobs::EmptyJobs;
use possum::workflow::lints::workflows::MissingWorkflowProperties;
use possum::workflow::lints::MissingProperty;
use possum::workflow::on::{
    BadEvent, BadInputType, EventKind, Trigger, WorkflowInputDefault, WorkflowInputType,
};
use possum::workflow::parser::{
    parse_individual_grant, ConcurrencyParser, EnvMapParser, EventParser, InputParser, JobParser,
    OnParser, OnStringParser, PermissionParser, StepParser, StrategyParser,
};
use possum::workflow::{Concurrency, Grant, Permission, Workflow, WorkflowParser};
use yaml_peg::parser::Loader;
use yaml_peg::repr::RcRepr;

fn convert(node: &yaml_peg::Node<RcRepr>) -> YamlNode {
    let yaml = match node.yaml() {
        yaml_peg::Yaml::Null => Yaml::Null,
        yaml_peg::Yaml::Bool(b) => Yaml::Bool(*b),
        yaml_peg::Yaml::Int(s) => Yaml::Int(s.clone()),
        yaml_peg::Yaml::Float(s) => Yaml::Float(s.clone()),
        yaml_peg::Yaml::Str(s) => Yaml::Str(s.clone()),
        yaml_peg::Yaml::Seq(items) => Yaml::Sequence(items.iter().map(convert).collect()),
        yaml_peg::Yaml::Map(pairs) => {
            Yaml::Mapping(pairs.iter().map(|(k, v)| (convert(k), convert(v))).collect())
        }
        yaml_peg::Yaml::Alias(a) => Yaml::Alias(a.clone()),
    };
    YamlNode::new(yaml, node.pos())
}

fn load(source: &str) -> Vec<YamlNode> {
    let mut loader: Loader<'_, RcRepr> = Loader::new(source.as_bytes());
    loader.parse().unwrap().iter().map(convert).collect()
}

fn one(source: &str) -> YamlNode {
    let mut documents = load(source);
    assert_eq!(documents.len(), 1);
    documents.pop().unwrap()
}

fn parse<T, P: Parser<T>>(parser: &P, source: &str) -> (PossumNodeKind<T>, Annotations) {
    let mut annotations = Annotations::new();
    let kind = parser.parse_node(&one(source), &mut annotations);
    (kind, annotations)
}

fn value<T: std::fmt::Debug>(kind: PossumNodeKind<T>) -> T {
    match kind {
        PossumNodeKind::Value(t) => t,
        other => panic!("not a value: {:?}", other),
    }
}

fn message<T: std::fmt::Debug>(kind: &PossumNodeKind<T>) -> &str {
    match kind {
        PossumNodeKind::Invalid(why) => why.as_str(),
        other => panic!("not invalid: {:?}", other),
    }
}

fn held<T: std::fmt::Debug>(field: &Option<PossumNode<T>>) -> &T {
    field.as_ref().unwrap().value().unwrap()
}

fn place(source: &str, pointer: &impl AsDocumentPointer) -> (usize, usize) {
    let document = Document::new(source.as_bytes().to_vec());
    let found = document.pos(&pointer.as_document_pointer()).unwrap();
    (found.line(), found.col())
}

fn shown(annotations: &Annotations) -> Vec<String> {
    annotations.entries().iter().map(Annotation::to_string).collect()
}

fn workflow(source: &str) -> (PossumNode<Workflow>, Annotations) {
    let mut annotations = Annotations::new();
    let root = parse_single_document(&load(source), &WorkflowParser::new(), &mut annotations)
        .unwrap();
    (root, annotations)
}

#[test]
fn a_workflow_is_parsed_field_by_field() {
    let source = "name: build\non: push\nenv:\n  CI: yes\njobs:\n  test:\n    name: Test\n";
    let (root, annotations) = workflow(source);
    assert_eq!(root.loc(), DocumentPointer(0));
    let parsed = root.value().unwrap();
    assert_eq!(held(&parsed.name), "build");
    assert_eq!(place(source, parsed.name.as_ref().unwrap()), (1, 7));
    assert!(parsed.run_name.is_none());
    assert!(parsed.permissions.is_none());
    let env = held(&parsed.env);
    assert_eq!(env.len(), 1);
    assert_eq!(env.iter()[0].0.value().unwrap(), "CI");
    assert_eq!(env.iter()[0].1.value().unwrap(), "yes");
    let jobs = held(&parsed.jobs);
    assert_eq!(jobs.len(), 1);
    assert_eq!(jobs.iter()[0].0.value().unwrap(), "test");
    assert_eq!(held(&jobs.iter()[0].1.value().unwrap().name), "Test");
    assert_eq!(place(source, &jobs.iter()[0].0), (6, 3));
    assert_eq!(annotations.entries().len(), 0);
}

#[test]
fn a_bad_field_does_not_stop_the_parse() {
    let source = "name: [not, a, name]\nrun_name: deploy\nsurprise: 1\njobs: 3\n";
    let (root, annotations) = workflow(source);
    let parsed = root.value().unwrap();
    assert_eq!(
        message(parsed.name.as_ref().unwrap().kind()),
        "expected Str but found Seq"
    );
    assert_eq!(held(&parsed.run_name), "deploy");
    assert_eq!(
        message(parsed.jobs.as_ref().unwrap().kind()),
        "expected Map but found Number"
    );
    assert_eq!(shown(&annotations), vec!["Error: Unexpected key: surprise"]);
    assert_eq!(place(source, &annotations.entries()[0]), (3, 1));
}

#[test]
fn a_workflow_that_is_no_mapping_is_one_invalid_root() {
    let (root, annotations) = workflow("- a\n- b\n");
    assert_eq!(message(root.kind()), "expected Map but found Seq");
    assert_eq!(annotations.entries().len(), 0);
}

#[test]
fn a_file_with_two_documents_is_refused() {
    let mut annotations = Annotations::new();
    let documents = load("name: a\n---\nname: b\n");
    assert_eq!(documents.len(), 2);
    match parse_single_document(&documents, &WorkflowParser::new(), &mut annotations) {
        Err(ParseFailure::TooManyDocuments(extra)) => {
            assert_eq!(extra, vec![documents[1].as_document_pointer()])
        }
        other => panic!("{:?}", other.map(|_| ())),
    }
}

#[test]
fn a_trigger_of_one_name_is_one_bare_event() {
    let (kind, annotations) = parse(&OnParser::new(), "push");
    let trigger: Trigger = value(kind);
    assert_eq!(trigger.0.len(), 1);
    assert_eq!(trigger.0.iter()[0].0.value(), Some(&EventKind::Push));
    assert_eq!(trigger.0.iter()[0].0.loc(), DocumentPointer(0));
    assert_eq!(trigger.0.iter()[0].1.loc(), DocumentPointer(0));
    assert!(matches!(trigger.0.iter()[0].1.kind(), PossumNodeKind::Empty));
    assert_eq!(annotations.entries().len(), 0);
}

#[test]
fn a_trigger_of_a_list_holds_each_named_event() {
    let source = "[push, pull_request]";
    let (kind, annotations) = parse(&OnParser::new(), source);
    let trigger: Trigger = value(kind);
    let events = trigger.0.iter();
    assert_eq!(events.len(), 2);
    assert_eq!(events[0].0.value(), Some(&EventKind::Push));
    assert_eq!(place(source, &events[0].0), (1, 2));
    assert_eq!(place(source, &events[0].1), (1, 2));
    assert!(matches!(events[0].1.kind(), PossumNodeKind::Empty));
    assert_eq!(events[1].0.value(), Some(&EventKind::PullRequest));
    assert_eq!(place(source, &events[1].0), (1, 8));
    assert_eq!(place(source, &events[1].1), (1, 8));
    assert!(matches!(events[1].1.kind(), PossumNodeKind::Empty));
    assert_eq!(annotations.entries().len(), 0);
}

#[test]
fn a_trigger_of_a_mapping_holds_each_event_with_what_narrows_it() {
    let source = "push:\n  branches: [main]\n";
    let (kind, annotations) = parse(&OnParser::new(), source);
    let trigger: Trigger = value(kind);
    let events = trigger.0.iter();
    assert_eq!(events.len(), 1);
    assert_eq!(events[0].0.value(), Some(&EventKind::Push));
    assert_eq!(place(source, &events[0].0), (1, 1));
    let event = events[0].1.value().unwrap();
    let branches = held(&event.branches);
    assert_eq!(branches.len(), 1);
    assert_eq!(branches.iter()[0].value().unwrap().0, "main");
    assert!(event.tags.is_none());
    assert_eq!(annotations.entries().len(), 0);
}

#[test]
fn a_trigger_of_a_list_keeps_an_unknown_name_as_invalid() {
    let (kind, annotations) = parse(&OnParser::new(), "[push, 3, rain]");
    let trigger: Trigger = value(kind);
    let events = trigger.0.iter();
    assert_eq!(events.len(), 3);
    assert_eq!(events[0].0.value(), Some(&EventKind::Push));
    assert_eq!(message(events[1].0.kind()), "expected Str but found Number");
    assert_eq!(message(events[2].0.kind()), "unknown event rain");
    assert_eq!(annotations.entries().len(), 0);
}

#[test]
fn a_trigger_of_one_name_holds_that_event() {
    let (kind, _) = parse(&OnParser::new(), "workflow_dispatch");
    let trigger = value(kind);
    assert_eq!(trigger.0.iter()[0].0.value(), Some(&EventKind::WorkflowDispatch));
    let (kind, _) = parse(&OnParser::new(), "pushh");
    let trigger = value(kind);
    assert_eq!(message(trigger.0.iter()[0].0.kind()), "unknown event pushh");
}

#[test]
fn a_trigger_that_is_no_name_list_or_mapping_is_invalid() {
    let mut annotations = Annotations::new();
    let number = YamlNode::new(Yaml::Int("3".to_string()), 0);
    let kind = OnParser::new().parse_node(&number, &mut annotations);
    assert_eq!(message(&kind), "expected [Str, Seq, Map] but found Number");
    let flag = YamlNode::new(Yaml::Bool(true), 0);
    let kind = OnParser::new().parse_node(&flag, &mut annotations);
    assert_eq!(message(&kind), "expected [Str, Seq, Map] but found Bool");
    assert_eq!(annotations.entries().len(), 0);
}

#[test]
fn one_event_name_is_read_from_a_string_alone() {
    let (kind, annotations) = parse(&OnStringParser, "[push]");
    assert_eq!(message(&kind), "expected Str but found Seq");
    assert_eq!(annotations.entries().len(), 0);
    let (kind, _) = parse(&OnStringParser, "push");
    assert_eq!(value(kind).0.iter()[0].0.value(), Some(&EventKind::Push));
}

#[test]
fn events_are_named_in_snake_case() {
    assert_eq!(EventKind::Push.to_string(), "push");
    assert_eq!(EventKind::PullRequestReviewComment.to_string(), "pull_request_review_comment");
    assert_eq!(EventKind::BranchProtectionRule.to_string(), "branch_protection_rule");
    assert_eq!(EventKind::WorkflowRun.to_string(), "workflow_run");
    assert_eq!(EventKind::fromstr("push").unwrap(), EventKind::Push);
    assert_eq!(EventKind::fromstr("pull_request").unwrap(), EventKind::PullRequest);
    assert_eq!(EventKind::fromstr("pull_request_target").unwrap(), EventKind::PullRequestTarget);
    assert_eq!(EventKind::fromstr("workflow_run").unwrap(), EventKind::WorkflowRun);
    assert_eq!(
        EventKind::fromstr("branch_protection_rule").unwrap(),
        EventKind::BranchProtectionRule
    );
}

#[test]
fn an_unknown_event_is_handed_back() {
    for name in ["", "Push", "PUSH", "pull-request", "push "] {
        match EventKind::fromstr(name) {
            Err(BadEvent::Unknown(handed_back)) => assert_eq!(handed_back, name),
            other => panic!("{:?}", other),
        }
    }
    assert_eq!(BadEvent::Unknown("rain".to_string()).to_string(), "unknown event rain");
}

#[test]
fn input_types_are_named_as_they_are_written() {
    assert_eq!(WorkflowInputType::fromstr("Str").unwrap(), WorkflowInputType::Str);
    assert_eq!(WorkflowInputType::fromstr("Number").unwrap(), WorkflowInputType::Number);
    assert_eq!(WorkflowInputType::fromstr("Bool").unwrap(), WorkflowInputType::Bool);
    assert_eq!(WorkflowInputType::fromstr("Choice").unwrap(), WorkflowInputType::Choice);
    match WorkflowInputType::fromstr("string") {
        Err(BadInputType::Unknown(name)) => assert_eq!(name, "string"),
        other => panic!("{:?}", other),
    }
    assert_eq!(
        BadInputType::Unknown("string".to_string()).to_string(),
        "unknown input type string"
    );
}

#[test]
fn an_event_is_narrowed_by_its_fields() {
    let source = "branches: [main, 'release/*']\ntags-ignore: [v0]\nbranch: x\n";
    let (kind, annotations) = parse(&EventParser::new(), source);
    let event = value(kind);
    let branches = held(&event.branches);
    assert_eq!(branches.len(), 2);
    assert_eq!(branches.iter()[0].value().unwrap().0, "main");
    assert_eq!(branches.iter()[1].value().unwrap().0, "release/*");
    assert_eq!(held(&event.tags_ignore).len(), 1);
    assert!(event.tags.is_none());
    assert!(event.paths.is_none());
    assert_eq!(shown(&annotations), vec!["Error: Unexpected key: branch"]);
    assert_eq!(place(source, &annotations.entries()[0]), (3, 1));
}

#[test]
fn an_input_is_parsed_with_its_type_and_default() {
    let source = "Description: which one\ntype: Choice\ndefault: a\nrequired: true\nchoices: [a, b]\nextra: 1\n";
    let (kind, annotations) = parse(&InputParser::new(), source);
    let input = value(kind);
    assert_eq!(held(&input.description), "which one");
    assert_eq!(held(&input.input_type), &WorkflowInputType::Choice);
    assert!(matches!(held(&input.default), WorkflowInputDefault::Str(s) if s == "a"));
    assert_eq!(held(&input.required), &true);
    assert_eq!(held(&input.choices).len(), 2);
    assert_eq!(shown(&annotations), vec!["Error: Unexpected key: extra"]);
    assert_eq!(place(source, &annotations.entries()[0]), (6, 1));
}

#[test]
fn the_default_of_an_input_is_a_string_a_boolean_or_a_number() {
    let (kind, _) = parse(&InputParser::new(), "default: false\n");
    assert!(matches!(held(&value(kind).default), WorkflowInputDefault::Bool(false)));
    let (kind, _) = parse(&InputParser::new(), "default: 0x10\n");
    assert!(matches!(
        held(&value(kind).default),
        WorkflowInputDefault::Number(Number::Integer(16))
    ));
    let (kind, _) = parse(&InputParser::new(), "default: [1]\n");
    assert_eq!(
        message(value(kind).default.as_ref().unwrap().kind()),
        "expected [Number, Str, Bool] but found Seq"
    );
    let (kind, _) = parse(&InputParser::new(), "type: choice\n");
    assert_eq!(
        message(value(kind).input_type.as_ref().unwrap().kind()),
        "unknown input type choice"
    );
}

#[test]
fn permissions_for_everything() {
    let (kind, _) = parse(&PermissionParser::new(), "read-all");
    assert!(matches!(value(kind), Permission::GlobalGrant(Grant::Read)));
    let (kind, _) = parse(&PermissionParser::new(), "Write-All");
    assert!(matches!(value(kind), Permission::GlobalGrant(Grant::Write)));
    let (kind, _) = parse(&PermissionParser::new(), "Everything");
    assert_eq!(message(&kind), "Expected read-all or write-all, but found everything");
    let (kind, _) = parse(&PermissionParser::new(), "[read-all]");
    assert_eq!(message(&kind), "expected [Str, Map] but found Seq");
}

#[test]
fn permissions_scope_by_scope() {
    let source = "contents: read\nissues: WRITE\npackages: none\nactions: all\nchecks: [read]\n";
    let (kind, annotations) = parse(&PermissionParser::new(), source);
    let grants = match value(kind) {
        Permission::IndividualGrants(grants) => grants,
        other => panic!("{:?}", other),
    };
    assert_eq!(grants.len(), 5);
    let pairs = grants.iter();
    assert_eq!(pairs[0].0.value().unwrap(), "contents");
    assert_eq!(pairs[0].1.value(), Some(&Grant::Read));
    assert_eq!(pairs[1].1.value(), Some(&Grant::Write));
    assert_eq!(pairs[2].1.value(), Some(&Grant::Deny));
    assert_eq!(message(pairs[3].1.kind()), "Expected read, write or none but found all");
    assert_eq!(message(pairs[4].1.kind()), "expected Str but found Seq");
    assert_eq!(place(source, &pairs[1].0), (2, 1));
    assert_eq!(place(source, &pairs[1].1), (2, 9));
    assert_eq!(annotations.entries().len(), 0);
}

#[test]
fn one_grant_is_read_whatever_its_case() {
    assert!(matches!(parse_individual_grant("read"), PossumNodeKind::Value(Grant::Read)));
    assert!(matches!(parse_individual_grant("Write"), PossumNodeKind::Value(Grant::Write)));
    assert!(matches!(parse_individual_grant("NONE"), PossumNodeKind::Value(Grant::Deny)));
    assert_eq!(
        message(&parse_individual_grant("Admin")),
        "Expected read, write or none but found admin"
    );
}

#[test]
fn concurrency_as_a_name_or_a_group() {
    let (kind, _) = parse(&ConcurrencyParser::new(), "deploy");
    assert!(matches!(value(kind), Concurrency::Concurrency(name) if name == "deploy"));
    let source = "group: ci\nCancel-In-Progress: true\nspeed: fast\n";
    let (kind, annotations) = parse(&ConcurrencyParser::new(), source);
    match value(kind) {
        Concurrency::Group { group, cancel_in_progress } => {
            assert_eq!(held(&group), "ci");
            assert_eq!(held(&cancel_in_progress), &true);
        }
        other => panic!("{:?}", other),
    }
    assert_eq!(shown(&annotations), vec!["Error: Unexpected key: speed"]);
    assert_eq!(place(source, &annotations.entries()[0]), (3, 1));
    let (kind, _) = parse(&ConcurrencyParser::new(), "[ci]");
    assert_eq!(message(&kind), "expected [Str, Map] but found Seq");
}

#[test]
fn a_step_is_parsed_with_keys_in_any_case() {
    let source = "Name: build\nrun: make\nwith:\n  level: high\nwhen: now\n";
    let (kind, annotations) = parse(&StepParser::new(), source);
    let step = value(kind);
    assert_eq!(held(&step.name), "build");
    assert_eq!(held(&step.run), "make");
    assert_eq!(held(&step.with).len(), 1);
    assert!(step.uses.is_none());
    assert_eq!(shown(&annotations), vec!["Error: Unexpected key: when"]);
    assert_eq!(place(source, &annotations.entries()[0]), (5, 1));
}

#[test]
fn an_unknown_key_of_a_job_is_reported_where_the_key_stands() {
    let source = "name: x\nbogus: 1\n";
    let (kind, annotations) = parse(&JobParser::new(), source);
    let job: Job = value(kind);
    assert_eq!(held(&job.name), "x");
    let entries = annotations.entries();
    assert_eq!(entries.len(), 1);
    assert_eq!(entries[0].level(), AnnotationLevel::Error);
    assert_eq!(entries[0].message(), "Unexpected key: bogus");
    assert_eq!(place(source, &entries[0]), (2, 1));
}

#[test]
fn a_job_is_parsed_field_by_field() {
    let source = "runs-on: ubuntu-latest\nneeds: [lint, build]\nif: always()\ntimeout-minutes: 30\ncontinue-on-error: false\nenvironment: production\nsteps:\n  - run: make\n  - uses: actions/checkout@v4\n    id: co\n    nope: 1\npermissions: read-all\nconcurrency: deploy\nstrategy:\n  fail-fast: true\n";
    let (kind, annotations) = parse(&JobParser::new(), source);
    let job = value(kind);
    let runs_on = held(&job.runs_on);
    assert_eq!(runs_on.len(), 1);
    assert_eq!(runs_on.iter()[0].value().unwrap(), "ubuntu-latest");
    let needs = held(&job.needs);
    assert_eq!(needs.len(), 2);
    assert_eq!(needs.iter()[0].value().unwrap(), "lint");
    assert_eq!(place(source, &needs.iter()[0]), (2, 9));
    assert_eq!(needs.iter()[1].value().unwrap(), "build");
    assert_eq!(place(source, &needs.iter()[1]), (2, 15));
    assert_eq!(held(&job.cond), "always()");
    assert!(matches!(held(&job.timeout_minutes), Number::Integer(30)));
    assert_eq!(held(&job.continue_on_error), &false);
    assert!(matches!(held(&job.environment), Environment::Bare(name) if name == "production"));
    let steps = held(&job.steps);
    assert_eq!(steps.len(), 2);
    assert_eq!(held(&steps.iter()[0].value().unwrap().run), "make");
    assert_eq!(held(&steps.iter()[1].value().unwrap().id), "co");
    assert!(matches!(held(&job.permissions), Permission::GlobalGrant(Grant::Read)));
    assert!(matches!(held(&job.concurrency), Concurrency::Concurrency(_)));
    assert_eq!(held(&held(&job.strategy).fail_fast), &true);
    assert_eq!(shown(&annotations), vec!["Error: Unexpected key: nope"]);
    assert_eq!(place(source, &annotations.entries()[0]), (11, 5));
}

#[test]
fn an_environment_with_settings_holds_their_values() {
    let source = "environment:\n  name: production\n  URL: https://example.com\n  tier: 1\n";
    let (kind, annotations) = parse(&JobParser::new(), source);
    match held(&value(kind).environment) {
        Environment::Env { name, url } => {
            assert_eq!(held(name), "production");
            assert_eq!(place(source, name.as_ref().unwrap()), (2, 9));
            assert_eq!(held(url), "https://example.com");
            assert_eq!(place(source, url.as_ref().unwrap()), (3, 8));
        }
        other => panic!("{:?}", other),
    }
    assert_eq!(shown(&annotations), vec!["Error: Unexpected key: tier"]);
    assert_eq!(place(source, &annotations.entries()[0]), (4, 3));
}

#[test]
fn an_environment_of_a_name_and_a_url_reports_nothing() {
    let source = "name: prod\nurl: https://x\n";
    let (kind, annotations) = parse(&EnvMapParser, source);
    match value(kind) {
        Environment::Env { name, url } => {
            assert_eq!(held(&name), "prod");
            assert_eq!(place(source, name.as_ref().unwrap()), (1, 7));
            assert_eq!(held(&url), "https://x");
            assert_eq!(place(source, url.as_ref().unwrap()), (2, 6));
        }
        other => panic!("{:?}", other),
    }
    assert_eq!(annotations.entries().len(), 0);
}

#[test]
fn an_environment_setting_that_is_no_string_is_invalid() {
    let (kind, annotations) = parse(&EnvMapParser, "name: [a]\n");
    match value(kind) {
        Environment::Env { name, url } => {
            assert_eq!(message(name.as_ref().unwrap().kind()), "expected Str but found Seq");
            assert!(url.is_none());
        }
        other => panic!("{:?}", other),
    }
    assert_eq!(annotations.entries().len(), 0);
}

#[test]
fn what_a_job_needs_is_one_name_or_a_list_of_names() {
    let source = "needs: [build, test]\n";
    let (kind, annotations) = parse(&JobParser::new(), source);
    let job = value(kind);
    let needs = held(&job.needs);
    assert_eq!(needs.len(), 2);
    assert_eq!(needs.iter()[0].value().unwrap(), "build");
    assert_eq!(place(source, &needs.iter()[0]), (1, 9));
    assert_eq!(needs.iter()[1].value().unwrap(), "test");
    assert_eq!(place(source, &needs.iter()[1]), (1, 16));
    assert_eq!(annotations.entries().len(), 0);
    let (kind, _) = parse(&JobParser::new(), "needs: build\nruns-on: [a, b]\n");
    let job = value(kind);
    assert_eq!(held(&job.needs).len(), 1);
    assert_eq!(held(&job.needs).iter()[0].value().unwrap(), "build");
    assert_eq!(held(&job.runs_on).len(), 2);
    assert_eq!(held(&job.runs_on).iter()[1].value().unwrap(), "b");
    let (kind, annotations) = parse(&JobParser::new(), "needs: 3\n");
    let job = value(kind);
    assert_eq!(
        message(job.needs.as_ref().unwrap().kind()),
        "expected [Str, Seq] but found Number"
    );
    assert_eq!(annotations.entries().len(), 0);
}

#[test]
fn a_strategy_holds_a_matrix_of_axes_and_rows() {
    let source = "max-parallel: 2\nmatrix:\n  OS: [linux, 3, true]\n  include:\n    - os: mac\n      level: 0x10\n  version: ${{ fromJson(inputs.versions) }}\n  exclude: 4\nshuffle: yes\n";
    let (kind, annotations) = parse(&StrategyParser, source);
    let strategy = value(kind);
    assert!(matches!(held(&strategy.max_parallel), Number::Integer(2)));
    let matrix = held(&strategy.matrix);
    assert_eq!(matrix.entries.len(), 2);
    let axes = matrix.entries.iter();
    assert_eq!(axes[0].0.value().unwrap(), "os");
    let os = axes[0].1.value().unwrap().iter();
    assert_eq!(os.len(), 3);
    assert!(matches!(os[0].value(), Some(MatrixInput::Str(s)) if s == "linux"));
    assert!(matches!(os[1].value(), Some(MatrixInput::Number(Number::Integer(3)))));
    assert!(matches!(os[2].kind(), PossumNodeKind::Empty));
    assert_eq!(axes[1].0.value().unwrap(), "version");
    assert!(matches!(axes[1].1.kind(), PossumNodeKind::Expr(_)));
    assert!(matches!(matrix.inclusions.as_ref().unwrap().kind(), PossumNodeKind::Empty));
    assert!(matrix.exclusions.is_none());
    assert_eq!(shown(&annotations), vec!["Error: Unexpected key: shuffle"]);
}

#[test]
fn rows_to_add_are_mappings_of_inputs() {
    let source = "matrix:\n  include:\n    - os: mac\n      level: 0x10\n    - 7\n";
    let (kind, _) = parse(&StrategyParser, source);
    let strategy = value(kind);
    let rows = held(&held(&strategy.matrix).inclusions).iter();
    assert_eq!(rows.len(), 2);
    let first = rows[0].value().unwrap().iter();
    assert_eq!(first.len(), 2);
    assert_eq!(first[0].0.value().unwrap(), "os");
    assert!(matches!(first[0].1.value(), Some(MatrixInput::Str(s)) if s == "mac"));
    assert!(matches!(first[1].1.value(), Some(MatrixInput::Number(Number::Integer(16)))));
    assert_eq!(message(rows[1].kind()), "expected Map but found Number");
    let (kind, _) = parse(&StrategyParser, "matrix:\n  include: 3\n");
    assert_eq!(
        message(held(&value(kind).matrix).inclusions.as_ref().unwrap().kind()),
        "expected [Str, Number, Bool] but found Number"
    );
    let (kind, _) = parse(&StrategyParser, "matrix:\n  arch: 3\n");
    assert_eq!(
        message(held(&value(kind).matrix).entries.iter()[0].1.kind()),
        "expected [Str, Seq] but found Number"
    );
}

#[test]
fn jobs_that_are_none_are_reported() {
    let mut annotations = Annotations::new();
    let (root, _) = workflow("jobs: {}\n");
    let jobs = root.value().unwrap().jobs.as_ref().unwrap();
    EmptyJobs.lint(jobs, &mut annotations);
    assert_eq!(shown(&annotations), vec!["Error: No jobs present in this workflow"]);
    assert_eq!(annotations.entries()[0].as_document_pointer(), jobs.loc());
    let (root, _) = workflow("jobs:\n  a:\n    name: A\n");
    EmptyJobs.lint(root.value().unwrap().jobs.as_ref().unwrap(), &mut annotations);
    let (root, _) = workflow("jobs: 3\n");
    EmptyJobs.lint(root.value().unwrap().jobs.as_ref().unwrap(), &mut annotations);
    assert_eq!(annotations.entries().len(), 1);
}

#[test]
fn a_workflow_without_on_or_jobs_is_reported() {
    let mut annotations = Annotations::new();
    let (root, _) = workflow("name: x\n");
    MissingWorkflowProperties.lint(&root, &mut annotations);
    assert_eq!(
        shown(&annotations),
        vec!["Error: missing required property: on", "Error: missing required property: jobs"]
    );
    let (root, _) = workflow("on: push\njobs: {}\n");
    MissingWorkflowProperties.lint(&root, &mut annotations);
    assert_eq!(annotations.entries().len(), 2);
    let (root, _) = workflow("on: push\n");
    MissingWorkflowProperties.lint(&root, &mut annotations);
    assert_eq!(annotations.entries().len(), 3);
    assert_eq!(annotations.entries()[2].message(), "missing required property: jobs");
    let note = MissingProperty("steps").at(&DocumentPointer(3));
    assert_eq!(note.to_string(), "Error: missing required property: steps");
}

#[test]
fn the_root_stands_where_the_document_stands() {
    for source in ["name: x\n", "\n\nname: x\n", "# first\n---\nname: x\n", "- a\n- b\n", "seven\n"] {
        let documents = load(source);
        assert_eq!(documents.len(), 1);
        let mut annotations = Annotations::new();
        let root =
            parse_single_document(&documents, &WorkflowParser::new(), &mut annotations).unwrap();
        assert_eq!(root.loc(), documents[0].as_document_pointer());
        assert_eq!(root.loc().0 as u64, documents[0].pos());
    }
}
