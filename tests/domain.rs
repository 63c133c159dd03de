use git_issue::event::IssueEvent;
use git_issue::identity::Identity;
use git_issue::issue::Issue;
use git_issue::priority::Priority;
use git_issue::status::IssueStatus;
use git_issue::timestamp::Timestamp;

fn now() -> Timestamp {
    Timestamp::new(1_700_000_000, 0)
}

fn test_identity() -> Identity {
    Identity::new("Test User", "test@example.com")
}

#[test]
fn test_identity_creation() {
    let identity = test_identity();
    assert_eq!(identity.name, "Test User");
    assert_eq!(identity.email, "test@example.com");
    assert_eq!(identity.to_string(), "Test User <test@example.com>");
}

#[test]
fn test_issue_status_parsing() {
    assert_eq!("todo".parse::<IssueStatus>().unwrap(), IssueStatus::Todo);
    assert_eq!(
        "in-progress".parse::<IssueStatus>().unwrap(),
        IssueStatus::InProgress
    );
    assert_eq!(
        "inprogress".parse::<IssueStatus>().unwrap(),
        IssueStatus::InProgress
    );
    assert_eq!("done".parse::<IssueStatus>().unwrap(), IssueStatus::Done);
    assert!("invalid".parse::<IssueStatus>().is_err());
}

#[test]
fn test_issue_creation() {
    let author = test_identity();
    let issue = Issue::new(
        1,
        "Test Issue".to_string(),
        "Test Description".to_string(),
        author.clone(),
        now(),
    );

    assert_eq!(issue.id, 1);
    assert_eq!(issue.title, "Test Issue");
    assert_eq!(issue.description, "Test Description");
    assert_eq!(issue.status, IssueStatus::Todo);
    assert_eq!(issue.created_by, author);
    assert!(issue.assignee().is_none());
    assert!(issue.labels.is_empty());
    assert!(issue.comments.is_empty());
}

#[test]
fn test_event_creation() {
    let author = test_identity();

    let created_event = IssueEvent::created(
        "Test".to_string(),
        "Description".to_string(),
        author.clone(),
        now(),
    );

    assert!(matches!(created_event, IssueEvent::Created { .. }));
    assert_eq!(created_event.author(), &author);

    let status_event =
        IssueEvent::status_changed(IssueStatus::Todo, IssueStatus::Done, author.clone(), now());
    assert!(matches!(status_event, IssueEvent::StatusChanged { .. }));
}

#[test]
fn test_issue_from_events() {
    let author = test_identity();
    let issue_id = 1;

    let events = vec![
        IssueEvent::created(
            "Test Issue".to_string(),
            "Description".to_string(),
            author.clone(),
            now(),
        ),
        IssueEvent::status_changed(IssueStatus::Todo, IssueStatus::InProgress, author.clone(), now()),
        IssueEvent::comment_added(
            "1-1".to_string(),
            "First comment".to_string(),
            author.clone(),
            now(),
        ),
        IssueEvent::label_added("bug".to_string(), author.clone(), now()),
    ];

    let issue = Issue::from_events(issue_id, &events).unwrap();

    assert_eq!(issue.id, issue_id);
    assert_eq!(issue.title, "Test Issue");
    assert_eq!(issue.status, IssueStatus::InProgress);
    assert_eq!(issue.comments.len(), 1);
    assert_eq!(issue.labels.len(), 1);
    assert!(issue.labels.contains(&"bug".to_string()));
}

#[test]
fn test_issue_from_empty_events() {
    let result = Issue::from_events(1, &[]);
    assert!(result.is_err());
}

#[test]
fn test_issue_from_invalid_first_event() {
    let author = test_identity();
    let events = vec![IssueEvent::status_changed(
        IssueStatus::Todo,
        IssueStatus::Done,
        author,
        now(),
    )];

    let result = Issue::from_events(1, &events);
    assert!(result.is_err());
}

#[test]
fn test_priority_display() {
    assert_eq!(Priority::Unset.to_string(), "none");
    assert_eq!(Priority::Urgent.to_string(), "urgent");
    assert_eq!(Priority::High.to_string(), "high");
    assert_eq!(Priority::Medium.to_string(), "medium");
    assert_eq!(Priority::Low.to_string(), "low");
}

#[test]
fn test_priority_from_str() {
    assert_eq!("none".parse::<Priority>().unwrap(), Priority::Unset);
    assert_eq!("urgent".parse::<Priority>().unwrap(), Priority::Urgent);
    assert_eq!("high".parse::<Priority>().unwrap(), Priority::High);
    assert_eq!("medium".parse::<Priority>().unwrap(), Priority::Medium);
    assert_eq!("low".parse::<Priority>().unwrap(), Priority::Low);

    assert_eq!("0".parse::<Priority>().unwrap(), Priority::Unset);
    assert_eq!("1".parse::<Priority>().unwrap(), Priority::Urgent);
    assert_eq!("2".parse::<Priority>().unwrap(), Priority::High);
    assert_eq!("3".parse::<Priority>().unwrap(), Priority::Medium);
    assert_eq!("4".parse::<Priority>().unwrap(), Priority::Low);

    assert_eq!("URGENT".parse::<Priority>().unwrap(), Priority::Urgent);
    assert_eq!("High".parse::<Priority>().unwrap(), Priority::High);
}

#[test]
fn test_priority_from_str_invalid() {
    assert!("invalid".parse::<Priority>().is_err());
    assert!("5".parse::<Priority>().is_err());
    assert!("".parse::<Priority>().is_err());
}

#[test]
fn test_priority_numeric_conversion() {
    assert_eq!(Priority::Unset.as_u8(), 0);
    assert_eq!(Priority::Urgent.as_u8(), 1);
    assert_eq!(Priority::High.as_u8(), 2);
    assert_eq!(Priority::Medium.as_u8(), 3);
    assert_eq!(Priority::Low.as_u8(), 4);

    assert_eq!(Priority::from_u8(0), Some(Priority::Unset));
    assert_eq!(Priority::from_u8(1), Some(Priority::Urgent));
    assert_eq!(Priority::from_u8(2), Some(Priority::High));
    assert_eq!(Priority::from_u8(3), Some(Priority::Medium));
    assert_eq!(Priority::from_u8(4), Some(Priority::Low));
    assert_eq!(Priority::from_u8(5), None);
}

#[test]
fn test_priority_default() {
    assert_eq!(Priority::default(), Priority::Unset);
}

#[test]
fn test_priority_all() {
    let all = Priority::all();
    assert_eq!(all.len(), 5);
    assert!(all.contains(&Priority::Unset));
    assert!(all.contains(&Priority::Urgent));
    assert!(all.contains(&Priority::High));
    assert!(all.contains(&Priority::Medium));
    assert!(all.contains(&Priority::Low));
}
