use git_issue::allocator::{allocate_step, allocation_retry, peek_next_id};
use git_issue::errors::StorageError;
use git_issue::event::IssueEvent;
use git_issue::identity::Identity;
use git_issue::issue::Issue;
use git_issue::mutation::{
    plan_add_label, plan_assignee_change, plan_comment, plan_remove_label, plan_status_change,
    plan_title_change,
};
use git_issue::priority::Priority;
use git_issue::refs::{issue_ref_name, list_issue_ids};
use git_issue::status::IssueStatus;
use git_issue::store::{
    append_failure, event_blob_oid, ref_update_failure, issue_from_chain, oldest_first, plan_append, RefUpdateFailure,
    TreeEntry, EVENT_FILE_MODE,
};
use git_issue::sync::{push_action, PushAction, RefComparisonResult, SyncRef};
use git_issue::timestamp::Timestamp;

fn alice() -> Identity {
    Identity::new("Alice", "a@x")
}

fn at(secs: i64) -> Timestamp {
    Timestamp::new(secs, 0)
}

fn created_chain() -> Vec<IssueEvent> {
    vec![IssueEvent::Created {
        title: "T1".to_string(),
        description: "D".to_string(),
        author: alice(),
        timestamp: at(100),
    }]
}

fn append(chain: &mut Vec<IssueEvent>, event: Option<IssueEvent>) {
    if let Some(e) = event {
        chain.push(e);
    }
}

#[test]
fn fresh_repository_create_issue() {
    let (id, next) = allocate_step(None).unwrap();
    assert_eq!(id, 1);
    assert_eq!(next, "2\n");

    let chain = created_chain();
    let plan = plan_append(id, &chain[0], "b1".to_string(), None);
    assert!(plan.parents.is_empty());
    assert!(plan.expected.is_none());
    assert_eq!(plan.ref_name, "refs/git-issue/issues/1");
    assert_eq!(plan.message, "Created: T1");
    assert_eq!(plan.entry.name, "event.json");
    assert_eq!(plan.entry.mode, 0o100644);

    let issue = issue_from_chain(id, &chain).unwrap();
    assert_eq!(issue.title, "T1");
    assert_eq!(issue.description, "D");
    assert_eq!(issue.status, IssueStatus::Todo);
    assert_eq!(issue.priority, Priority::Unset);
    assert!(issue.labels.is_empty());
    assert!(issue.assignees.is_empty());
    assert_eq!(issue.created_by, alice());
    assert_eq!(chain.len(), 1);
}

#[test]
fn repeated_status_change_appends_once() {
    let mut chain = created_chain();
    let issue = issue_from_chain(1, &chain).unwrap();
    let first = plan_status_change(&issue, IssueStatus::InProgress, &alice(), at(200));
    append(&mut chain, first);
    let issue = issue_from_chain(1, &chain).unwrap();
    let second = plan_status_change(&issue, IssueStatus::InProgress, &alice(), at(300));
    assert!(second.is_none());
    append(&mut chain, second);
    assert_eq!(chain.len(), 2);
    match &chain[1] {
        IssueEvent::StatusChanged { from, to, .. } => {
            assert_eq!(*from, IssueStatus::Todo);
            assert_eq!(*to, IssueStatus::InProgress);
        }
        _ => panic!("expected a status change"),
    }
    assert_eq!(issue.updated_at, at(200));
}

#[test]
fn labels_added_and_removed() {
    let mut chain = created_chain();
    let issue = issue_from_chain(1, &chain).unwrap();
    append(&mut chain, plan_add_label(&issue, "bug", &alice(), at(200)).unwrap());
    let issue = issue_from_chain(1, &chain).unwrap();
    append(&mut chain, plan_add_label(&issue, "urgent", &alice(), at(300)).unwrap());
    let issue = issue_from_chain(1, &chain).unwrap();
    append(&mut chain, plan_remove_label(&issue, "bug", &alice(), at(400)).unwrap());
    let issue = issue_from_chain(1, &chain).unwrap();
    assert_eq!(issue.labels, vec!["urgent".to_string()]);
    assert_eq!(chain.len(), 4);
}

#[test]
fn concurrent_title_updates_one_wins() {
    let chain = created_chain();
    let head = "h0".to_string();
    let issue = issue_from_chain(1, &chain).unwrap();
    let first = plan_title_change(&issue, &"First".to_string(), &alice(), at(200)).unwrap();
    let second = plan_title_change(&issue, &"Second".to_string(), &alice(), at(201)).unwrap();
    let first_plan = plan_append(1, &first, "b1".to_string(), Some(head.clone()));
    let second_plan = plan_append(1, &second, "b2".to_string(), Some(head.clone()));
    assert_eq!(first_plan.expected, Some(head.clone()));
    assert_eq!(second_plan.expected, Some(head.clone()));

    // The reference moves only when it still holds the expected value.
    let mut reference = head.clone();
    let c1 = "c1".to_string();
    assert_eq!(first_plan.expected.as_ref(), Some(&reference));
    reference = c1.clone();
    assert_ne!(second_plan.expected.as_ref(), Some(&reference));
    let failure = ref_update_failure(&Some(reference.clone()), &second_plan.expected, "locked".to_string());
    assert!(matches!(failure, RefUpdateFailure::Conflict));
    let err = append_failure(1, failure);
    assert!(matches!(err, StorageError::ConcurrentModification { issue_id: 1 }));
    assert_eq!(reference, c1);

    let mut winner = chain.clone();
    winner.push(first);
    assert_eq!(winner.len(), 2);
    assert_eq!(issue_from_chain(1, &winner).unwrap().title, "First");
}

#[test]
fn sync_dry_run_classifies_new_ref() {
    let mut refs = Vec::new();
    for id in 1..=3u64 {
        let name = issue_ref_name(id);
        let local = Some(format!("oid{}", id));
        let remote = if id == 2 { None } else { Some(format!("oid{}", id)) };
        refs.push(SyncRef::new(name, local, remote, 0, 0).unwrap());
    }
    assert_eq!(refs[0].comparison, RefComparisonResult::UpToDate);
    assert_eq!(refs[1].comparison, RefComparisonResult::NewRef);
    assert_eq!(refs[2].comparison, RefComparisonResult::UpToDate);
    assert_eq!(refs[1].issue_id, Some(2));
    assert_eq!(push_action(refs[0].comparison, false, false), PushAction::Skip);
    assert_eq!(
        push_action(refs[1].comparison, false, false),
        PushAction::Push { force: false, lease: false }
    );
}

#[test]
fn allocator_from_five() {
    let mut blob = "5\n".to_string();
    let mut ids = Vec::new();
    for _ in 0..3 {
        let (id, next) = allocate_step(Some(blob.as_str())).unwrap();
        ids.push(id);
        blob = next;
    }
    ids.sort();
    assert_eq!(ids, vec![5, 6, 7]);
    assert_eq!(blob, "8\n");
}

#[test]
fn allocator_reads_trimmed_and_rejects_garbage() {
    assert_eq!(peek_next_id(None).unwrap(), 1);
    assert_eq!(peek_next_id(Some("  12 \n")).unwrap(), 12);
    assert_eq!(peek_next_id(Some("7")).unwrap(), 7);
    assert!(peek_next_id(Some("x1")).is_err());
    assert!(peek_next_id(Some("")).is_err());
    assert!(allocate_step(Some("18446744073709551615")).is_err());
    assert!(allocation_retry(31).is_ok());
    assert!(matches!(
        allocation_retry(32),
        Err(StorageError::ConcurrentAllocation)
    ));
}

#[test]
fn listed_ids_are_sorted_and_checked() {
    let refs = vec![
        "refs/git-issue/issues/10".to_string(),
        "refs/git-issue/meta/next-issue-id".to_string(),
        "refs/git-issue/issues/2".to_string(),
        "refs/heads/main".to_string(),
        "refs/git-issue/issues/7".to_string(),
    ];
    assert_eq!(list_issue_ids(&refs).unwrap(), vec![2, 7, 10]);
    let bad = vec!["refs/git-issue/issues/abc".to_string()];
    assert!(matches!(
        list_issue_ids(&bad),
        Err(StorageError::InvalidIssueId { .. })
    ));
    let padded = vec!["refs/git-issue/issues/007".to_string()];
    assert!(list_issue_ids(&padded).is_err());
}

#[test]
fn event_tree_must_hold_only_event_json() {
    let good = vec![TreeEntry {
        name: "event.json".to_string(),
        oid: "abc".to_string(),
        mode: EVENT_FILE_MODE,
    }];
    assert_eq!(event_blob_oid(&good).unwrap(), "abc");
    let wrong = vec![TreeEntry {
        name: "other.json".to_string(),
        oid: "abc".to_string(),
        mode: EVENT_FILE_MODE,
    }];
    assert!(matches!(
        event_blob_oid(&wrong),
        Err(StorageError::InvalidEventSequence { .. })
    ));
    assert!(event_blob_oid(&Vec::new()).is_err());
}

#[test]
fn chain_order_and_empty_chain() {
    let mut newest_first = created_chain();
    newest_first.insert(
        0,
        IssueEvent::TitleChanged {
            old_title: "T1".to_string(),
            new_title: "T2".to_string(),
            author: alice(),
            timestamp: at(200),
        },
    );
    let chain = oldest_first(newest_first);
    assert!(matches!(chain[0], IssueEvent::Created { .. }));
    let issue = issue_from_chain(3, &chain).unwrap();
    assert_eq!(issue.title, "T2");
    assert_eq!(issue.created_at, at(100));
    assert_eq!(issue.updated_at, at(200));
    assert!(matches!(
        issue_from_chain(3, &Vec::new()),
        Err(StorageError::IssueNotFound { issue_id: 3 })
    ));
}

#[test]
fn second_created_event_is_refused() {
    let mut chain = created_chain();
    chain.push(created_chain().remove(0));
    assert!(matches!(
        Issue::from_events(1, &chain),
        Err(StorageError::InvalidEventSequence { .. })
    ));
}

#[test]
fn comment_ids_are_dense() {
    let mut chain = created_chain();
    let issue = issue_from_chain(4, &chain).unwrap();
    chain.push(plan_comment(&issue, &"hello".to_string(), &alice(), at(200)));
    let issue = issue_from_chain(4, &chain).unwrap();
    chain.push(plan_comment(&issue, &"again".to_string(), &alice(), at(300)));
    let issue = issue_from_chain(4, &chain).unwrap();
    assert_eq!(issue.comments.len(), 2);
    assert_eq!(issue.comments[0].id, "4-1");
    assert_eq!(issue.comments[1].id, "4-2");
    assert_eq!(issue.comments[1].content, "again");
}

#[test]
fn assignee_changes_only_when_different() {
    let mut chain = created_chain();
    let issue = issue_from_chain(1, &chain).unwrap();
    let bob = Identity::new("Bob", "b@x");
    let e = plan_assignee_change(&issue, &Some(bob.clone()), &alice(), at(200));
    assert!(e.is_some());
    append(&mut chain, e);
    let issue = issue_from_chain(1, &chain).unwrap();
    assert_eq!(issue.assignee(), Some(bob.clone()));
    assert!(plan_assignee_change(&issue, &Some(bob), &alice(), at(300)).is_none());
    let e = plan_assignee_change(&issue, &None, &alice(), at(400));
    append(&mut chain, e);
    assert!(issue_from_chain(1, &chain).unwrap().assignees.is_empty());
}

#[test]
fn label_arguments_are_trimmed_and_checked() {
    let chain = created_chain();
    let issue = issue_from_chain(1, &chain).unwrap();
    match plan_add_label(&issue, "  bug  ", &alice(), at(200)).unwrap() {
        Some(IssueEvent::LabelAdded { label, .. }) => assert_eq!(label, "bug"),
        _ => panic!("expected a label event"),
    }
    assert!(plan_add_label(&issue, "   ", &alice(), at(200)).is_err());
    assert!(plan_add_label(&issue, "two words", &alice(), at(200)).is_err());
    assert!(plan_remove_label(&issue, "bug", &alice(), at(200)).unwrap().is_none());
}

#[test]
fn adding_a_label_twice_is_adding_it_once() {
    let mut chain = created_chain();
    let issue = issue_from_chain(1, &chain).unwrap();
    append(&mut chain, plan_add_label(&issue, "bug", &alice(), at(200)).unwrap());
    let once = issue_from_chain(1, &chain).unwrap();
    let again = plan_add_label(&once, "bug", &alice(), at(300)).unwrap();
    assert!(again.is_none());
    assert_eq!(once.labels, vec!["bug".to_string()]);
    assert_eq!(chain.len(), 2);
}

#[test]
fn removing_a_label_twice_is_removing_it_once() {
    let mut chain = created_chain();
    let issue = issue_from_chain(1, &chain).unwrap();
    append(&mut chain, plan_add_label(&issue, "bug", &alice(), at(200)).unwrap());
    let issue = issue_from_chain(1, &chain).unwrap();
    append(&mut chain, plan_remove_label(&issue, "bug", &alice(), at(300)).unwrap());
    let once = issue_from_chain(1, &chain).unwrap();
    assert!(plan_remove_label(&once, "bug", &alice(), at(400)).unwrap().is_none());
    assert!(once.labels.is_empty());
    assert_eq!(chain.len(), 3);
}

#[test]
fn unchanged_requests_make_no_event() {
    let chain = created_chain();
    let issue = issue_from_chain(1, &chain).unwrap();
    assert!(plan_status_change(&issue, IssueStatus::Todo, &alice(), at(200)).is_none());
    assert!(plan_title_change(&issue, &"T1".to_string(), &alice(), at(200)).is_none());
    assert!(plan_assignee_change(&issue, &None, &alice(), at(200)).is_none());
    assert!(git_issue::mutation::plan_description_change(&issue, &"D".to_string(), &alice(), at(200)).is_none());
    assert!(git_issue::mutation::plan_priority_change(&issue, Priority::Unset, &alice(), at(200)).is_none());
    assert!(git_issue::mutation::plan_created_by_change(&issue, &alice(), &alice(), at(200)).is_none());
    assert!(git_issue::mutation::plan_assignees_change(&issue, &Vec::new(), &alice(), at(200)).is_none());
    assert!(git_issue::mutation::plan_priority_change(&issue, Priority::High, &alice(), at(200)).is_some());
}

#[test]
fn refused_update_with_unchanged_reference_is_not_a_conflict() {
    let same = ref_update_failure(&Some("h".to_string()), &Some("h".to_string()), "io".to_string());
    assert!(matches!(same, RefUpdateFailure::Other(ref m) if m == "io"));
    let created_meanwhile = ref_update_failure(&Some("h".to_string()), &None, "exists".to_string());
    assert!(matches!(created_meanwhile, RefUpdateFailure::Conflict));
    assert!(matches!(
        append_failure(2, RefUpdateFailure::Other("x".to_string())),
        StorageError::Git(_)
    ));
}

#[test]
fn present_label_is_a_no_op_before_any_check() {
    let mut chain = created_chain();
    chain.push(IssueEvent::LabelAdded { label: "two words".to_string(), author: alice(), timestamp: at(150) });
    let issue = issue_from_chain(1, &chain).unwrap();
    assert!(plan_add_label(&issue, "two words", &alice(), at(200)).unwrap().is_none());
    assert!(plan_remove_label(&issue, "two words", &alice(), at(200)).is_err());
}

#[test]
fn single_assignee_request_replaces_a_longer_list() {
    let mut chain = created_chain();
    let x = Identity::new("X", "x@x");
    let y = Identity::new("Y", "y@x");
    chain.push(IssueEvent::AssigneesChanged {
        old_assignees: vec![],
        new_assignees: vec![x.clone(), y],
        author: alice(),
        timestamp: at(150),
    });
    let issue = issue_from_chain(1, &chain).unwrap();
    let e = plan_assignee_change(&issue, &Some(x.clone()), &alice(), at(200));
    assert!(e.is_some());
    append(&mut chain, e);
    assert_eq!(issue_from_chain(1, &chain).unwrap().assignees, vec![x]);
}

#[test]
fn malformed_chain_is_an_invalid_sequence() {
    let chain = vec![IssueEvent::TitleChanged {
        old_title: "a".to_string(),
        new_title: "b".to_string(),
        author: alice(),
        timestamp: at(1),
    }];
    assert!(matches!(
        issue_from_chain(1, &chain),
        Err(StorageError::InvalidEventSequence { .. })
    ));
}
