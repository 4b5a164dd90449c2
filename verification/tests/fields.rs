use possum::document::{Annotation, Annotations, AsDocumentPointer, DocumentPointer};
use possum::scavenge::ast::{PossumNode, PossumNodeKind};
use possum::scavenge::extraction::Number;
use possum::scavenge::parsers::Builder;
use possum::scavenge::yaml::{Yaml, YamlNode};
use possum::scavenge::Fallible;
use possum::workflow::job::{Matrix, MatrixInput, Step, Strategy};
use possum::workflow::on::{WorkflowInput, WorkflowInputType};
use possum::workflow::parser::{
    global_grant_named, grant_named, set_env_field, set_group_field, InputBuilder, MatrixBuilder,
    StepBuilder, StrategyBuilder, WorkflowBuilder,
};
use possum::workflow::{Grant, Permission};

fn scalar(s: &str, pos: u64) -> YamlNode {
    YamlNode::new(Yaml::Str(s.to_string()), pos)
}

fn list(items: Vec<YamlNode>, pos: u64) -> YamlNode {
    YamlNode::new(Yaml::Sequence(items), pos)
}

fn reason<T: std::fmt::Debug>(kind: &PossumNodeKind<T>) -> &str {
    match kind {
        PossumNodeKind::Invalid(why) => why.as_str(),
        other => panic!("not invalid: {:?}", other),
    }
}

fn taken<T: std::fmt::Debug>(field: &Option<PossumNode<T>>) -> &T {
    field.as_ref().unwrap().value().unwrap()
}

fn lines(annotations: &Annotations) -> Vec<String> {
    annotations.entries().iter().map(Annotation::to_string).collect()
}

#[test]
fn a_step_takes_a_field_by_its_lowered_key() {
    let mut notes = Annotations::new();
    let mut builder = StepBuilder { step: Step::default() };
    let key = scalar("Name", 3);
    let outcome = builder.build_lowered("name", &key, &scalar("build", 9), &mut notes);
    assert!(matches!(outcome, Fallible::Success));
    assert_eq!(taken(&builder.step.name), "build");
    assert_eq!(builder.step.name.as_ref().unwrap().loc(), DocumentPointer(9));
    assert!(builder.step.run.is_none());
    let outcome = builder.build_lowered("if", &key, &scalar("always()", 20), &mut notes);
    assert!(matches!(outcome, Fallible::Success));
    assert_eq!(taken(&builder.step.cond), "always()");
    assert_eq!(taken(&builder.step.name), "build");
    assert_eq!(notes.entries().len(), 0);
}

#[test]
fn a_step_compares_the_key_it_is_handed_as_it_stands() {
    let mut notes = Annotations::new();
    let mut builder = StepBuilder { step: Step::default() };
    let key = scalar("Name", 3);
    match builder.build_lowered("Name", &key, &scalar("build", 9), &mut notes) {
        Fallible::Failure(note) => {
            assert_eq!(note.to_string(), "Error: Unexpected key: Name");
            assert_eq!(note.as_document_pointer(), DocumentPointer(3));
        }
        Fallible::Success => panic!("taken in"),
    }
    assert!(builder.step.name.is_none());
    assert_eq!(notes.entries().len(), 0);
}

#[test]
fn a_strategy_takes_a_field_by_its_lowered_key() {
    let mut notes = Annotations::new();
    let mut builder = StrategyBuilder { strategy: Strategy::default() };
    let at = DocumentPointer(2);
    builder.build_lowered("fail-fast", &YamlNode::new(Yaml::Bool(true), 13), &at, &mut notes);
    assert_eq!(taken(&builder.strategy.fail_fast), &true);
    builder.build_lowered("max-parallel", &YamlNode::new(Yaml::Int("4".into()), 30), &at, &mut notes);
    assert!(matches!(taken(&builder.strategy.max_parallel), Number::Integer(4)));
    assert_eq!(taken(&builder.strategy.fail_fast), &true);
    assert_eq!(notes.entries().len(), 0);
    builder.build_lowered("Fail-Fast", &YamlNode::new(Yaml::Bool(false), 50), &at, &mut notes);
    assert_eq!(taken(&builder.strategy.fail_fast), &true);
    assert_eq!(lines(&notes), vec!["Error: Unexpected key: Fail-Fast"]);
    assert_eq!(notes.entries()[0].as_document_pointer(), DocumentPointer(2));
}

#[test]
fn a_matrix_names_an_axis_by_the_lowered_key() {
    let mut notes = Annotations::new();
    let mut builder = MatrixBuilder { matrix: Matrix::default() };
    let axis = list(vec![scalar("linux", 6), scalar("mac", 13)], 5);
    builder.build_lowered("os".to_string(), &axis, &DocumentPointer(1), &mut notes);
    assert_eq!(builder.matrix.entries.len(), 1);
    let entry = &builder.matrix.entries.iter()[0];
    assert_eq!(entry.0.value().unwrap(), "os");
    assert_eq!(entry.0.loc(), DocumentPointer(1));
    assert_eq!(entry.1.loc(), DocumentPointer(5));
    let inputs = entry.1.value().unwrap().iter();
    assert_eq!(inputs.len(), 2);
    assert!(matches!(inputs[1].value(), Some(MatrixInput::Str(s)) if s == "mac"));
    assert!(builder.matrix.inclusions.is_none());
    assert_eq!(notes.entries().len(), 0);
}

#[test]
fn an_input_takes_a_field_by_its_lowered_key() {
    let mut notes = Annotations::new();
    let mut builder = InputBuilder { input: WorkflowInput::default() };
    let at = DocumentPointer(7);
    builder.build_lowered("type", &scalar("Number", 13), &at, &mut notes);
    assert_eq!(taken(&builder.input.input_type), &WorkflowInputType::Number);
    builder.build_lowered("description", &scalar("how many", 30), &at, &mut notes);
    assert_eq!(taken(&builder.input.description), "how many");
    assert_eq!(notes.entries().len(), 0);
    builder.build_lowered("kind", &scalar("Number", 50), &at, &mut notes);
    assert_eq!(lines(&notes), vec!["Error: Unexpected key: kind"]);
    assert_eq!(notes.entries()[0].as_document_pointer(), DocumentPointer(7));
    assert_eq!(taken(&builder.input.input_type), &WorkflowInputType::Number);
}

#[test]
fn a_grant_is_named_in_lower_case() {
    assert!(matches!(grant_named("read"), PossumNodeKind::Value(Grant::Read)));
    assert!(matches!(grant_named("write"), PossumNodeKind::Value(Grant::Write)));
    assert!(matches!(grant_named("none"), PossumNodeKind::Value(Grant::Deny)));
    assert_eq!(reason(&grant_named("Read")), "Expected read, write or none but found Read");
    assert_eq!(reason(&grant_named("")), "Expected read, write or none but found ");
}

#[test]
fn a_grant_for_everything_is_named_in_lower_case() {
    assert!(matches!(
        global_grant_named("read-all"),
        PossumNodeKind::Value(Permission::GlobalGrant(Grant::Read))
    ));
    assert!(matches!(
        global_grant_named("write-all"),
        PossumNodeKind::Value(Permission::GlobalGrant(Grant::Write))
    ));
    assert_eq!(
        reason(&global_grant_named("READ-ALL")),
        "Expected read-all or write-all, but found READ-ALL"
    );
    assert_eq!(
        reason(&global_grant_named("read")),
        "Expected read-all or write-all, but found read"
    );
}

#[test]
fn an_environment_takes_the_value_of_each_setting() {
    let mut notes = Annotations::new();
    let at = DocumentPointer(0);
    let fields = set_env_field((None, None), "name", "Name", &at, &scalar("prod", 6), &mut notes);
    assert_eq!(taken(&fields.0), "prod");
    assert_eq!(fields.0.as_ref().unwrap().loc(), DocumentPointer(6));
    assert!(fields.1.is_none());
    let fields = set_env_field(fields, "url", "url", &at, &scalar("https://x", 16), &mut notes);
    assert_eq!(taken(&fields.0), "prod");
    assert_eq!(taken(&fields.1), "https://x");
    assert_eq!(fields.1.as_ref().unwrap().loc(), DocumentPointer(16));
    assert_eq!(notes.entries().len(), 0);
    let fields = set_env_field(fields, "tier", "Tier", &DocumentPointer(26), &scalar("1", 32), &mut notes);
    assert_eq!(taken(&fields.0), "prod");
    assert_eq!(taken(&fields.1), "https://x");
    assert_eq!(lines(&notes), vec!["Error: Unexpected key: Tier"]);
    assert_eq!(notes.entries()[0].as_document_pointer(), DocumentPointer(26));
}

#[test]
fn a_group_takes_the_value_of_each_setting() {
    let mut notes = Annotations::new();
    let at = DocumentPointer(0);
    let fields = set_group_field((None, None), "group", &at, &scalar("ci", 7), &mut notes);
    assert_eq!(taken(&fields.0), "ci");
    assert!(fields.1.is_none());
    let flag = YamlNode::new(Yaml::Bool(true), 30);
    let fields = set_group_field(fields, "cancel-in-progress", &at, &flag, &mut notes);
    assert_eq!(taken(&fields.0), "ci");
    assert_eq!(taken(&fields.1), &true);
    assert_eq!(notes.entries().len(), 0);
    let fields = set_group_field(fields, "speed", &DocumentPointer(40), &flag, &mut notes);
    assert_eq!(taken(&fields.1), &true);
    assert_eq!(lines(&notes), vec!["Error: Unexpected key: speed"]);
    assert_eq!(notes.entries()[0].as_document_pointer(), DocumentPointer(40));
}

#[test]
fn a_workflow_reports_an_unknown_key_where_the_key_stands() {
    let mut notes = Annotations::new();
    let mut builder = WorkflowBuilder::new();
    builder.build("name", &scalar("ci", 6), &DocumentPointer(0), &mut notes);
    builder.build("surprise", &scalar("x", 19), &DocumentPointer(9), &mut notes);
    assert_eq!(lines(&notes), vec!["Error: Unexpected key: surprise"]);
    assert_eq!(notes.entries()[0].as_document_pointer(), DocumentPointer(9));
    let workflow = builder.finish();
    assert_eq!(taken(&workflow.name), "ci");
    assert!(workflow.run_name.is_none());
    assert!(workflow.on.is_none());
    assert!(workflow.jobs.is_none());
    assert!(workflow.env.is_none());
    assert!(workflow.permissions.is_none());
}
