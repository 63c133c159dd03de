use git_issue::assign::{plan_assign, plan_unassign};
use git_issue::edit::{apply_cli_edits, plan_edit, EditArgs};
use git_issue::env::{get_author_identity, resolve_author, MockEnvProvider};
use git_issue::event::IssueEvent;
use git_issue::identity::Identity;
use git_issue::issue::Issue;
use git_issue::labels::plan_label_changes;
use git_issue::list::filter_issues;
use git_issue::output::{format_time_ago, truncate_to_first_paragraph};
use git_issue::priority::Priority;
use git_issue::status::IssueStatus;
use git_issue::sync::{
    check_force_flags, check_remote, choose_push_remote, classify_ref, push_action, refs_for_issues, PushAction,
    RefComparisonResult, SyncSummary,
};
use git_issue::text::{decimal_string, parse_u64};
use git_issue::timestamp::Timestamp;

fn sample_issue(id: u64, title: &str) -> Issue {
    let events = vec![IssueEvent::Created {
        title: title.to_string(),
        description: "Some text".to_string(),
        author: Identity::new("Alice", "a@x"),
        timestamp: Timestamp::new(1, 0),
    }];
    Issue::from_events(id, &events).unwrap()
}

#[test]
fn time_ago_units() {
    assert_eq!(format_time_ago(0), "0 seconds");
    assert_eq!(format_time_ago(1), "1 second");
    assert_eq!(format_time_ago(59), "59 seconds");
    assert_eq!(format_time_ago(60), "1 minute");
    assert_eq!(format_time_ago(7200), "2 hours");
    assert_eq!(format_time_ago(86400), "1 day");
    assert_eq!(format_time_ago(86400 * 45), "1 month");
    assert_eq!(format_time_ago(86400 * 30 * 25), "2 years");
}

#[test]
fn paragraph_word_count_is_exact() {
    let (first, rest) =
        truncate_to_first_paragraph("  Intro.  \n\nSecond paragraph with more content.\n\nThird too.");
    assert_eq!(first, "Intro.");
    assert_eq!(rest, Some(7));
    let (first, rest) = truncate_to_first_paragraph("Only.\n\n   ");
    assert_eq!(first, "Only.");
    assert_eq!(rest, None);
}

#[test]
fn decimal_text_round_trip() {
    assert_eq!(decimal_string(0), "0");
    assert_eq!(decimal_string(1234567890), "1234567890");
    assert_eq!(parse_u64("18446744073709551615"), Some(u64::MAX));
    assert_eq!(parse_u64("18446744073709551616"), None);
    assert_eq!(parse_u64("+5"), None);
}

#[test]
fn commit_messages() {
    let a = Identity::new("Alice", "a@x");
    let t = Timestamp::new(5, 0);
    let e = IssueEvent::StatusChanged {
        from: IssueStatus::Todo,
        to: IssueStatus::Done,
        author: a.clone(),
        timestamp: t,
    };
    assert_eq!(e.commit_message(), "StatusChanged: todo → done");
    let e = IssueEvent::PriorityChanged {
        old_priority: Priority::Unset,
        new_priority: Priority::High,
        author: a.clone(),
        timestamp: t,
    };
    assert_eq!(e.commit_message(), "PriorityChanged: none → high");
    let e = IssueEvent::AssigneesChanged {
        old_assignees: vec![],
        new_assignees: vec![a.clone(), a.clone()],
        author: a.clone(),
        timestamp: t,
    };
    assert_eq!(e.commit_message(), "AssigneesChanged: 2 assignees");
    let e = IssueEvent::AssigneeChanged {
        old_assignee: Some(a.clone()),
        new_assignee: None,
        author: a.clone(),
        timestamp: t,
    };
    assert_eq!(e.commit_message(), "AssigneeChanged: unassigned");
}

#[test]
fn ref_classification_and_policy() {
    let l = Some("a".to_string());
    let r = Some("b".to_string());
    assert_eq!(
        classify_ref(&l, &r, 2, 0),
        Some(RefComparisonResult::FastForward { local_commits: 2 })
    );
    assert_eq!(
        classify_ref(&l, &r, 0, 3),
        Some(RefComparisonResult::Behind { remote_commits: 3 })
    );
    assert_eq!(
        classify_ref(&l, &r, 1, 1),
        Some(RefComparisonResult::Diverged {
            local_commits: 1,
            remote_commits: 1
        })
    );
    assert_eq!(
        classify_ref(&None, &r, 0, 0),
        Some(RefComparisonResult::LocallyDeleted)
    );
    assert_eq!(classify_ref(&None, &None, 0, 0), None);
    let diverged = RefComparisonResult::Diverged {
        local_commits: 1,
        remote_commits: 1,
    };
    assert_eq!(push_action(diverged, false, false), PushAction::Conflict);
    assert_eq!(
        push_action(diverged, true, false),
        PushAction::Push { force: true, lease: true }
    );
    assert_eq!(
        push_action(diverged, false, true),
        PushAction::Push { force: true, lease: false }
    );
    assert!(check_force_flags(true, true).is_err());
    assert!(check_force_flags(true, false).is_ok());
    assert!(check_remote("origin", false).is_err());
    assert_eq!(check_remote("origin", true).unwrap(), "origin");
}

#[test]
fn sync_summary_records() {
    let mut s = SyncSummary::default();
    s.record_push("r1".to_string(), Ok(()));
    s.record_push("r2".to_string(), Err("boom".to_string()));
    s.record_conflict("r3".to_string());
    s.record_skipped("r4".to_string());
    assert_eq!(s.pushed_refs, vec!["r1".to_string()]);
    assert_eq!(s.failed_refs, vec![("r2".to_string(), "boom".to_string())]);
    assert!(s.outcome(false, false).is_err());
    assert!(s.outcome(true, false).is_ok());
    assert_eq!(
        refs_for_issues(&vec![1, 2], &vec![true, true]).unwrap(),
        vec!["refs/git-issue/issues/1".to_string(), "refs/git-issue/issues/2".to_string()]
    );
    assert!(refs_for_issues(&vec![1, 9], &vec![true, false]).is_err());
}

#[test]
fn label_command_plan() {
    let current = vec!["existing-label".to_string()];
    let args = vec![
        "+bug".to_string(),
        "+existing-label".to_string(),
        "-existing-label".to_string(),
        "-missing".to_string(),
    ];
    let plan = plan_label_changes(&current, &args).unwrap();
    assert_eq!(plan.to_add, vec!["bug".to_string()]);
    assert_eq!(plan.already_present, vec!["existing-label".to_string()]);
    assert_eq!(plan.to_remove, vec!["existing-label".to_string()]);
    assert_eq!(plan.not_found, vec!["missing".to_string()]);
    assert!(plan_label_changes(&current, &Vec::new()).is_err());
}

#[test]
fn assign_and_unassign_plans() {
    let current = vec![Identity::new("", "x@y")];
    let plan = plan_assign(&current, &vec!["x@y".to_string(), "z@y".to_string()], "me@y").unwrap();
    assert_eq!(plan.added, vec!["z@y".to_string()]);
    assert_eq!(plan.already_assigned, vec!["x@y".to_string()]);
    assert_eq!(plan.new_assignees.len(), 2);
    let own = plan_assign(&Vec::new(), &Vec::new(), "me@y").unwrap();
    assert_eq!(own.added, vec!["me@y".to_string()]);
    assert!(plan_assign(&current, &vec!["nope".to_string()], "me@y").is_err());
    let un = plan_unassign(&plan.new_assignees, &vec!["x@y".to_string(), "q@y".to_string()]);
    assert_eq!(un.removed, vec!["x@y".to_string()]);
    assert_eq!(un.not_assigned, vec!["q@y".to_string()]);
    assert_eq!(un.new_assignees, vec![Identity::new("", "z@y")]);
    let all = plan_unassign(&plan.new_assignees, &Vec::new());
    assert!(all.new_assignees.is_empty());
    assert_eq!(all.removed.len(), 2);
}

#[test]
fn edit_plans() {
    let issue = sample_issue(1, "Original Title");
    let args = EditArgs {
        id: 1,
        title: Some("  New Title ".to_string()),
        description: None,
        status: Some("done".to_string()),
        add_label: vec![" bug ".to_string()],
        remove_label: vec![],
        assignee: Some("u@x".to_string()),
        no_editor: true,
        author_name: None,
        author_email: None,
    };
    let edited = apply_cli_edits(&issue, &args, "me@x").unwrap();
    assert_eq!(edited.labels, vec!["bug".to_string()]);
    let plan = plan_edit(&issue, &edited).unwrap();
    assert_eq!(plan.title, Some("New Title".to_string()));
    assert_eq!(plan.description, None);
    assert_eq!(plan.status, Some(IssueStatus::Done));
    assert_eq!(plan.assignee, Some(Some(Identity::new("", "u@x"))));
    assert_eq!(plan.added_labels, vec!["bug".to_string()]);
    assert!(plan.removed_labels.is_empty());
}

#[test]
fn list_filtering() {
    let mut done = sample_issue(2, "Completed bug fix");
    done.status = IssueStatus::Done;
    let issues = vec![
        sample_issue(1, "Fix BUG in auth"),
        done,
        sample_issue(3, "Refactor"),
    ];
    let shown = filter_issues(&issues, Some("bug".to_string()), None, false);
    assert_eq!(shown.len(), 1);
    assert_eq!(shown[0].id, 1);
    let shown = filter_issues(&issues, Some("bug".to_string()), None, true);
    assert_eq!(shown.len(), 2);
    let shown = filter_issues(&issues, None, Some(IssueStatus::Done), false);
    assert_eq!(shown.len(), 1);
    assert_eq!(shown[0].id, 2);
}

#[test]
fn author_resolution_order() {
    let env = MockEnvProvider::with_git_author("Env User", "env@example.com");
    let who = get_author_identity(None, None, Some("Cfg".to_string()), None, &env);
    assert_eq!(who, Identity::new("Env User", "env@example.com"));
    let who = get_author_identity(Some("Me".to_string()), None, None, None, &MockEnvProvider::new());
    assert_eq!(who, Identity::new("Me", "unknown@localhost"));
    let who = resolve_author(None, None, None, None, Some("user".to_string()), None, Some("c@x".to_string()));
    assert_eq!(who, Identity::new("user", "c@x"));
    let who = resolve_author(None, None, None, None, None, None, None);
    assert_eq!(who, Identity::new("Unknown", "unknown@localhost"));
}

#[test]
fn issue_methods_keep_the_rules() {
    let mut issue = sample_issue(9, "T");
    let t = Timestamp::new(50, 0);
    assert_eq!(issue.add_comment("c".to_string(), Identity::new("A", "a@x"), t), "9-1");
    assert_eq!(issue.comments[0].created_at, t);
    issue.add_label("bug".to_string(), t);
    issue.add_label("bug".to_string(), t);
    assert_eq!(issue.labels.len(), 1);
    issue.remove_label("bug", t);
    assert!(issue.labels.is_empty());
    issue.change_priority(Priority::Low, t);
    assert_eq!(issue.priority, Priority::Low);
    issue.assign_to(Some(Identity::new("B", "b@x")), t);
    assert_eq!(issue.assignee(), Some(Identity::new("B", "b@x")));
    issue.change_title("U".to_string(), Timestamp::new(60, 0));
    assert_eq!(issue.title, "U");
    assert_eq!(issue.updated_at, Timestamp::new(60, 0));
}

#[test]
fn default_push_remote_choice() {
    let remotes = vec!["upstream".to_string(), "origin".to_string()];
    assert_eq!(choose_push_remote(Some("upstream".to_string()), &remotes).unwrap(), "upstream");
    assert_eq!(choose_push_remote(None, &remotes).unwrap(), "origin");
    assert!(choose_push_remote(None, &vec!["upstream".to_string()]).is_err());
}

#[test]
fn edit_template_text() {
    let mut issue = sample_issue(5, "Fix it");
    issue.description = "line one\r\nline two\n".to_string();
    issue.labels = vec!["bug".to_string(), "ui".to_string()];
    let text = git_issue::edit::create_template(&issue, "me@x");
    assert!(text.contains("title: \"Fix it\"\nstatus: todo  # Options"));
    assert!(text.contains("labels:\n  - bug\n  - ui\nassignee: \"me@x\""));
    assert!(text.ends_with("description: |\n  line one\n  line two"));
    let lines = git_issue::edit::split_lines("a\n\nb\r\n");
    assert_eq!(lines, vec!["a".to_string(), "".to_string(), "b".to_string()]);
    issue.labels.clear();
    assert!(git_issue::edit::create_template(&issue, "me@x").contains("labels:\n  []\n"));
}

#[test]
fn edit_form_accepts_every_status_alias() {
    let issue = sample_issue(1, "Title");
    for word in ["open", "Progress", "closed", "complete", "todo", "inprogress"] {
        let form = git_issue::edit::EditableIssue {
            title: "Title".to_string(),
            status: word.to_string(),
            labels: vec![],
            assignee: None,
            description: "Some text".to_string(),
        };
        assert!(git_issue::edit::validate_editable_issue(&form).is_ok());
        assert!(plan_edit(&issue, &form).is_ok());
    }
    assert_eq!("closed".parse::<IssueStatus>().unwrap(), IssueStatus::Done);
}

#[test]
fn edit_without_options_changes_nothing() {
    let issue = sample_issue(1, "Original Title");
    let args = EditArgs {
        id: 1,
        title: None,
        description: None,
        status: None,
        add_label: vec![],
        remove_label: vec![],
        assignee: None,
        no_editor: true,
        author_name: None,
        author_email: None,
    };
    let edited = apply_cli_edits(&issue, &args, "me@x").unwrap();
    let plan = plan_edit(&issue, &edited).unwrap();
    assert!(plan.title.is_none());
    assert!(plan.description.is_none());
    assert!(plan.status.is_none());
    assert!(plan.assignee.is_none());
    assert!(plan.added_labels.is_empty());
    assert!(plan.removed_labels.is_empty());
}

#[test]
fn first_missing_issue_is_reported() {
    match refs_for_issues(&vec![1, 9, 8], &vec![true, false, false]) {
        Err(git_issue::errors::StorageError::IssueNotFound { issue_id }) => assert_eq!(issue_id, 9),
        _ => panic!("expected the first missing issue"),
    }
}

#[test]
fn trimming_drops_unicode_white_space() {
    assert_eq!(git_issue::text::trim("  a b \t\u{3000}\n"), "a b");
    assert_eq!(git_issue::text::trim(" \u{a0} "), "");
    assert_eq!(git_issue::text::trim("x"), "x");
}
