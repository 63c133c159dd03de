//! The workflow state of an issue and the words that name it.
use vstd::prelude::*;
use vstd::string::*;
use crate::errors::StorageError;
use crate::text::{lower_of, str_eq, to_lower};

verus! {

/// Where an issue stands; a new issue is `Todo`.
#[derive(Debug, Clone, Copy, PartialEq, Eq, Structural)]
pub enum IssueStatus {
    Todo,
    InProgress,
    Done,
}

/// The canonical lower-case name of a status.
pub open spec fn status_text(s: IssueStatus) -> Seq<char> {
    match s {
        IssueStatus::Todo => "todo"@,
        IssueStatus::InProgress => "in-progress"@,
        IssueStatus::Done => "done"@,
    }
}

/// The status that a lower-case word names in the command and edit grammar.
pub open spec fn status_alias(t: Seq<char>) -> Option<IssueStatus> {
    if t == "todo"@ || t == "open"@ {
        Some(IssueStatus::Todo)
    } else if t == "in-progress"@ || t == "inprogress"@ || t == "progress"@ {
        Some(IssueStatus::InProgress)
    } else if t == "done"@ || t == "closed"@ || t == "complete"@ {
        Some(IssueStatus::Done)
    } else {
        None
    }
}

impl Default for IssueStatus {
    fn default() -> (r: IssueStatus)
        ensures
            r == IssueStatus::Todo,
    {
        IssueStatus::Todo
    }
}

impl IssueStatus {
    /// The canonical name: `todo`, `in-progress` or `done`.
    pub fn to_string(&self) -> (r: String)
        ensures
            r@ == status_text(*self),
    {
        match self {
            IssueStatus::Todo => String::from_str("todo"),
            IssueStatus::InProgress => String::from_str("in-progress"),
            IssueStatus::Done => String::from_str("done"),
        }
    }

    /// Reads a status word of the command and edit grammar, ignoring case.
    pub fn parse(s: &str) -> (r: Result<IssueStatus, StorageError>)
        ensures
            r is Ok <==> status_alias(lower_of(s@)) is Some,
            r is Ok ==> r->Ok_0 == status_alias(lower_of(s@))->Some_0,
            r is Err ==> r->Err_0 is Validation,
    {
        let lower = to_lower(s);
        match status_from_alias(lower.as_str()) {
            Some(st) => Ok(st),
            None => Err(
                StorageError::validation(String::from_str("Invalid status: ").concat(s)),
            ),
        }
    }
}

impl std::str::FromStr for IssueStatus {
    type Err = StorageError;

    fn from_str(s: &str) -> Result<IssueStatus, StorageError> {
        IssueStatus::parse(s)
    }
}

/// Reads an already lower-cased status word of the command and edit grammar.
pub fn status_from_alias(t: &str) -> (r: Option<IssueStatus>)
    ensures
        r == status_alias(t@),
{
    if str_eq(t, "todo") || str_eq(t, "open") {
        Some(IssueStatus::Todo)
    } else if str_eq(t, "in-progress") || str_eq(t, "inprogress") || str_eq(t, "progress") {
        Some(IssueStatus::InProgress)
    } else if str_eq(t, "done") || str_eq(t, "closed") || str_eq(t, "complete") {
        Some(IssueStatus::Done)
    } else {
        None
    }
}

/// Reads a status word of the command and edit grammar, ignoring case:
/// `todo`/`open`, `in-progress`/`inprogress`/`progress`, `done`/`closed`/`complete`.
pub fn parse_status(s: &str) -> (r: Result<IssueStatus, StorageError>)
    ensures
        r is Ok <==> status_alias(lower_of(s@)) is Some,
        r is Ok ==> r->Ok_0 == status_alias(lower_of(s@))->Some_0,
        r is Err ==> r->Err_0 is Validation,
{
    let lower = to_lower(s);
    match status_from_alias(lower.as_str()) {
        Some(st) => Ok(st),
        None => Err(
            StorageError::validation(
                String::from_str("Invalid status '").concat(s).concat(
                    "'. Valid options: todo, in-progress, done",
                ),
            ),
        ),
    }
}

} // verus!
