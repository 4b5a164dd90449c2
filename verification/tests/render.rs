use possum::document::{Annotation, Document, DocumentPointer, DocumentPosition};
use possum::project::{check_root, check_workflows, is_workflow_extension, InitFailureReason};
use possum::render::{annotation_line, decimal, failure_line, show_failure, show_position};
use possum::scavenge::ParseFailure;

#[test]
fn numbers_are_written_in_decimal() {
    assert_eq!(decimal(0), "0");
    assert_eq!(decimal(7), "7");
    assert_eq!(decimal(10), "10");
    assert_eq!(decimal(109), "109");
    assert_eq!(decimal(65536), "65536");
    assert_eq!(decimal(usize::MAX), usize::MAX.to_string());
    for n in 0..2000 {
        assert_eq!(decimal(n), n.to_string());
    }
}

#[test]
fn a_position_is_shown_as_line_and_column() {
    assert_eq!(show_position(&DocumentPosition(12, 3)), "12:3");
    assert_eq!(show_position(&DocumentPosition(1, 1)), "1:1");
}

#[test]
fn a_failure_is_shown_on_a_line_of_its_own() {
    assert_eq!(show_failure(&ParseFailure::Empty), "document is empty\n");
    assert_eq!(
        show_failure(&ParseFailure::CouldntOpen("denied".to_string())),
        "could not open document\n"
    );
    assert_eq!(
        show_failure(&ParseFailure::InvalidDocument("invalid map key".to_string())),
        "invalid map key\n"
    );
    assert_eq!(
        show_failure(&ParseFailure::TooManyDocuments(vec![DocumentPointer(9)])),
        "too many documents in file\n"
    );
    assert_eq!(
        failure_line("ci/build.yml", &ParseFailure::Empty),
        "ci/build.yml:: document is empty\n\n"
    );
}

#[test]
fn a_diagnostic_is_shown_with_its_path_and_position() {
    let document = Document::new(b"a: 1\nb: 2\n".to_vec());
    let note = Annotation::error(&DocumentPointer(5), "Unexpected key: b");
    assert_eq!(
        annotation_line("ci/build.yml", &document, &note).unwrap(),
        "ci/build.yml:2:1: Error: Unexpected key: b\n"
    );
    let beyond = Annotation::warn(&DocumentPointer(40), "nowhere");
    assert_eq!(annotation_line("ci/build.yml", &document, &beyond), None);
}

#[test]
fn a_root_must_be_there_and_be_a_directory() {
    assert!(check_root("repo".to_string(), true, true).is_ok());
    let missing = check_root("repo".to_string(), false, false).unwrap_err();
    assert_eq!(missing.reason, InitFailureReason::DirectoryNotFound);
    assert_eq!(missing.path, "repo");
    let file = check_root("repo".to_string(), true, false).unwrap_err();
    assert_eq!(file.reason, InitFailureReason::NotADirectory);
    assert_eq!(
        check_root("repo".to_string(), false, true).unwrap_err().reason,
        InitFailureReason::DirectoryNotFound
    );
}

#[test]
fn a_project_must_hold_a_workflow() {
    assert!(check_workflows("repo".to_string(), 1).is_ok());
    assert!(check_workflows("repo".to_string(), 12).is_ok());
    let none = check_workflows("repo".to_string(), 0).unwrap_err();
    assert_eq!(none.reason, InitFailureReason::NoWorkflows);
    assert_eq!(none.to_string(), "repo: no workflows found in directory");
}

#[test]
fn workflow_files_end_in_yaml_or_yml() {
    assert!(is_workflow_extension("yaml"));
    assert!(is_workflow_extension("yml"));
    assert!(is_workflow_extension("oldyml"));
    assert!(!is_workflow_extension("yamlx"));
    assert!(!is_workflow_extension("YAML"));
    assert!(!is_workflow_extension("ym"));
    assert!(!is_workflow_extension(""));
    assert!(!is_workflow_extension("json"));
}
