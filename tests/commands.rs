use git_issue::edit::{validate_editable_issue, EditableIssue};
use git_issue::env::{EnvProvider, MockEnvProvider};
use git_issue::labels::{parse_label_operations, validate_label_name};
use git_issue::output::truncate_to_first_paragraph;
use git_issue::status::{parse_status, IssueStatus};
use git_issue::sync::SyncSummary;

fn check_parse_status_valid() {
    assert_eq!(parse_status("todo").unwrap(), IssueStatus::Todo);
    assert_eq!(parse_status("open").unwrap(), IssueStatus::Todo);
    assert_eq!(parse_status("TODO").unwrap(), IssueStatus::Todo);

    assert_eq!(
        parse_status("in-progress").unwrap(),
        IssueStatus::InProgress
    );
    assert_eq!(parse_status("inprogress").unwrap(), IssueStatus::InProgress);
    assert_eq!(parse_status("progress").unwrap(), IssueStatus::InProgress);
    assert_eq!(
        parse_status("IN-PROGRESS").unwrap(),
        IssueStatus::InProgress
    );

    assert_eq!(parse_status("done").unwrap(), IssueStatus::Done);
    assert_eq!(parse_status("closed").unwrap(), IssueStatus::Done);
    assert_eq!(parse_status("complete").unwrap(), IssueStatus::Done);
    assert_eq!(parse_status("DONE").unwrap(), IssueStatus::Done);
}

fn check_parse_status_invalid() {
    let result = parse_status("invalid");
    assert!(result.is_err(), "Should return error for invalid status");
    assert!(result.unwrap_err().to_string().contains("Invalid status"));
}

#[test]
fn commands_test_parse_status_valid() {
    check_parse_status_valid();
}

#[test]
fn commands_test_parse_status_invalid() {
    check_parse_status_invalid();
}

#[test]
fn status_test_parse_status_valid() {
    check_parse_status_valid();
}

#[test]
fn status_test_parse_status_invalid() {
    check_parse_status_invalid();
}

fn editable(
    title: &str,
    status: &str,
    labels: Vec<String>,
    assignee: Option<String>,
    description: &str,
) -> EditableIssue {
    EditableIssue {
        title: title.to_string(),
        status: status.to_string(),
        labels,
        assignee,
        description: description.to_string(),
    }
}

fn check_empty_title() {
    let editable = editable("", "todo", Vec::new(), None, "Description");
    let result = validate_editable_issue(&editable);
    assert!(result.is_err());
    assert!(result
        .unwrap_err()
        .to_string()
        .contains("Title cannot be empty"));
}

fn check_label_with_spaces() {
    let editable = editable(
        "Valid Title",
        "todo",
        vec!["label with spaces".to_string()],
        None,
        "Description",
    );
    let result = validate_editable_issue(&editable);
    assert!(result.is_err());
    assert!(result.unwrap_err().to_string().contains("contains spaces"));
}

fn check_invalid_status() {
    let editable = editable("Valid Title", "invalid-status", Vec::new(), None, "Description");
    let result = validate_editable_issue(&editable);
    assert!(result.is_err());
    assert!(result.unwrap_err().to_string().contains("Invalid status"));
}

fn check_invalid_email() {
    let editable = editable(
        "Valid Title",
        "todo",
        Vec::new(),
        Some("not-an-email".to_string()),
        "Description",
    );
    let result = validate_editable_issue(&editable);
    assert!(result.is_err());
    assert!(result
        .unwrap_err()
        .to_string()
        .contains("Invalid email format"));
}

fn check_valid() {
    let editable = editable(
        "Valid Title",
        "in-progress",
        vec!["bug".to_string(), "urgent".to_string()],
        Some("user@example.com".to_string()),
        "Valid description",
    );
    let result = validate_editable_issue(&editable);
    assert!(result.is_ok());
}

#[test]
fn commands_test_validate_editable_issue_empty_title() {
    check_empty_title();
}

#[test]
fn commands_test_validate_editable_issue_label_with_spaces() {
    check_label_with_spaces();
}

#[test]
fn commands_test_validate_editable_issue_invalid_status() {
    check_invalid_status();
}

#[test]
fn commands_test_validate_editable_issue_invalid_email() {
    check_invalid_email();
}

#[test]
fn commands_test_validate_editable_issue_valid() {
    check_valid();
}

#[test]
fn edit_test_validate_editable_issue_empty_title() {
    check_empty_title();
}

#[test]
fn edit_test_validate_editable_issue_label_with_spaces() {
    check_label_with_spaces();
}

#[test]
fn edit_test_validate_editable_issue_invalid_status() {
    check_invalid_status();
}

#[test]
fn edit_test_validate_editable_issue_invalid_email() {
    check_invalid_email();
}

#[test]
fn edit_test_validate_editable_issue_valid() {
    check_valid();
}

#[test]
fn test_parse_label_operations_valid() {
    let labels = vec![
        "+bug".to_string(),
        "+feature".to_string(),
        "-old-label".to_string(),
    ];

    let (add_labels, remove_labels) = parse_label_operations(&labels).unwrap();

    assert_eq!(add_labels, vec!["bug", "feature"]);
    assert_eq!(remove_labels, vec!["old-label"]);
}

#[test]
fn test_parse_label_operations_only_adds() {
    let labels = vec!["+bug".to_string(), "+feature".to_string()];

    let (add_labels, remove_labels) = parse_label_operations(&labels).unwrap();

    assert_eq!(add_labels, vec!["bug", "feature"]);
    assert!(remove_labels.is_empty());
}

#[test]
fn test_parse_label_operations_only_removes() {
    let labels = vec!["-bug".to_string(), "-feature".to_string()];

    let (add_labels, remove_labels) = parse_label_operations(&labels).unwrap();

    assert!(add_labels.is_empty());
    assert_eq!(remove_labels, vec!["bug", "feature"]);
}

#[test]
fn test_parse_label_operations_invalid_prefix() {
    let labels = vec!["bug".to_string()];

    let result = parse_label_operations(&labels);
    assert!(result.is_err());
    assert!(result.unwrap_err().to_string().contains("must start with"));
}

#[test]
fn test_parse_label_operations_empty_label() {
    let labels = vec!["+".to_string()];

    let result = parse_label_operations(&labels);
    assert!(result.is_err());
    assert!(result.unwrap_err().to_string().contains("Empty label"));
}

#[test]
fn test_validate_label_name_valid() {
    assert!(validate_label_name("bug").is_ok());
    assert!(validate_label_name("feature-request").is_ok());
    assert!(validate_label_name("v1.2.3").is_ok());
}

#[test]
fn test_validate_label_name_with_spaces() {
    let result = validate_label_name("bug fix");
    assert!(result.is_err());
    assert!(result.unwrap_err().to_string().contains("contains spaces"));
}

#[test]
fn test_validate_label_name_with_whitespace() {
    let result = validate_label_name(" bug ");
    assert!(result.is_err());
    assert!(result.unwrap_err().to_string().contains("whitespace"));
}

#[test]
fn test_sync_summary_default() {
    let summary = SyncSummary::default();
    assert!(summary.pushed_refs.is_empty());
    assert!(summary.skipped_refs.is_empty());
    assert!(summary.failed_refs.is_empty());
    assert!(summary.conflicts.is_empty());
}

#[test]
fn test_truncate_to_first_paragraph_single() {
    let text = "This is a single paragraph with no breaks.";
    let (truncated, remaining) = truncate_to_first_paragraph(text);

    assert_eq!(truncated, text);
    assert_eq!(remaining, None);
}

#[test]
fn test_truncate_to_first_paragraph_multiple() {
    let text =
        "First paragraph here.\n\nSecond paragraph with more content.\n\nThird paragraph too.";
    let (truncated, remaining) = truncate_to_first_paragraph(text);

    assert_eq!(truncated, "First paragraph here.");
    assert!(remaining.is_some());
    let word_count = remaining.unwrap();
    assert!(word_count > 0);
}

#[test]
fn test_truncate_to_first_paragraph_empty() {
    let text = "";
    let (truncated, remaining) = truncate_to_first_paragraph(text);

    assert_eq!(truncated, "");
    assert_eq!(remaining, None);
}

#[test]
fn test_mock_env_provider() {
    let mut mock = MockEnvProvider::new();

    assert_eq!(mock.get_var("TEST_VAR"), None);

    mock.set_var("TEST_VAR", "test_value");
    assert_eq!(mock.get_var("TEST_VAR"), Some("test_value".to_string()));

    mock.remove_var("TEST_VAR");
    assert_eq!(mock.get_var("TEST_VAR"), None);
}

#[test]
fn test_mock_env_provider_builder() {
    let mut mock = MockEnvProvider::new();
    mock.set_var("VAR1", "value1").set_var("VAR2", "value2");

    assert_eq!(mock.get_var("VAR1"), Some("value1".to_string()));
    assert_eq!(mock.get_var("VAR2"), Some("value2".to_string()));
    assert_eq!(mock.get_var("VAR3"), None);
}

#[test]
fn test_with_git_author() {
    let mock = MockEnvProvider::with_git_author("Test User", "test@example.com");

    assert_eq!(
        mock.get_var("GIT_AUTHOR_NAME"),
        Some("Test User".to_string())
    );
    assert_eq!(
        mock.get_var("GIT_AUTHOR_EMAIL"),
        Some("test@example.com".to_string())
    );
    assert_eq!(mock.get_var("OTHER_VAR"), None);
}
