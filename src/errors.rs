//! The errors that the library reports.
use vstd::prelude::*;
use vstd::string::*;
use crate::text::{decimal, decimal_string};

verus! {

/// A failure of the object database, a reference transaction or a remote.
#[derive(Debug, Clone)]
pub enum GitError {
    RepositoryNotFound { path: String },
    InitializationFailed { message: String },
    ObjectNotFound { oid: String },
    InvalidObjectType { expected: String, actual: String },
    ReferenceNotFound { ref_name: String },
    ReferenceUpdateFailed { ref_name: String, message: String },
    ReferenceCreationFailed { ref_name: String, message: String },
    ReferenceReadFailed { ref_name: String, message: String },
    ObjectCreationFailed { object_type: String, message: String },
    ObjectReadFailed { oid: String, message: String },
    InvalidObjectData { message: String },
    TreeEntryNotFound { name: String },
    InvalidTreeStructure { message: String },
    CommitParsingFailed { message: String },
    InvalidReferenceName { ref_name: String },
    ConcurrentReferenceUpdate { ref_name: String },
    RepositoryLocked { message: String },
    OperationFailed { operation: String, message: String },
}

/// What can go wrong in the issue store and around it.
#[derive(Debug, Clone)]
pub enum StorageError {
    /// The object store, a reference or a remote failed.
    Git(GitError),
    /// No reference for the issue, or an empty chain.
    IssueNotFound { issue_id: u64 },
    /// An event could not be encoded or decoded.
    Serialization { message: String },
    /// A chain that does not start with exactly one `Created`, a bad tree, an unknown tag.
    InvalidEventSequence { message: String },
    /// A reference suffix that is not a decimal issue id.
    InvalidIssueId { value: String },
    /// The issue reference moved between reading it and updating it.
    ConcurrentModification { issue_id: u64 },
    /// The id counter kept moving for the whole retry budget.
    ConcurrentAllocation,
    /// An input that the rules refuse (label, e-mail, title, status).
    Validation { message: String },
    /// A synchronisation that cannot go on (conflicts, flags, remote).
    Sync { message: String },
}

/// How an error reads, given the decimal spelling of the issue id it may carry.
pub open spec fn error_text(e: StorageError) -> Seq<char> {
    match e {
        StorageError::Git(_) => "Git error"@,
        StorageError::IssueNotFound { issue_id } => "Issue not found: "@ + decimal(issue_id as nat),
        StorageError::Serialization { message } => "Serialization error: "@ + message@,
        StorageError::InvalidEventSequence { message } => "Invalid event sequence: "@ + message@,
        StorageError::InvalidIssueId { value } => "Invalid issue ID format: "@ + value@,
        StorageError::ConcurrentModification { issue_id } => "Concurrent modification of issue "@
            + decimal(issue_id as nat),
        StorageError::ConcurrentAllocation => "Concurrent issue id allocation"@,
        StorageError::Validation { message } => message@,
        StorageError::Sync { message } => message@,
    }
}

impl StorageError {
    pub fn issue_not_found(issue_id: u64) -> (r: StorageError)
        ensures
            r == (StorageError::IssueNotFound { issue_id }),
    {
        StorageError::IssueNotFound { issue_id }
    }

    pub fn invalid_event_sequence(message: &str) -> (r: StorageError)
        ensures
            r matches StorageError::InvalidEventSequence { message: m } && m@ == message@,
    {
        StorageError::InvalidEventSequence { message: String::from_str(message) }
    }

    pub fn invalid_issue_id(value: &str) -> (r: StorageError)
        ensures
            r matches StorageError::InvalidIssueId { value: v } && v@ == value@,
    {
        StorageError::InvalidIssueId { value: String::from_str(value) }
    }

    /// A validation error with the given message.
    pub fn validation(message: String) -> (r: StorageError)
        ensures
            r matches StorageError::Validation { message: m } && m@ == message@,
    {
        StorageError::Validation { message }
    }

    /// The one-line text of the error; a store error is summarised by its kind.
    pub fn to_string(&self) -> (r: String)
        ensures
            !(self is Git) ==> r@ == error_text(*self),
    {
        match self {
            StorageError::Git(g) => git_error_text(g),
            StorageError::IssueNotFound { issue_id } => String::from_str("Issue not found: ").concat(
                decimal_string(*issue_id).as_str(),
            ),
            StorageError::Serialization { message } => String::from_str(
                "Serialization error: ",
            ).concat(message.as_str()),
            StorageError::InvalidEventSequence { message } => String::from_str(
                "Invalid event sequence: ",
            ).concat(message.as_str()),
            StorageError::InvalidIssueId { value } => String::from_str(
                "Invalid issue ID format: ",
            ).concat(value.as_str()),
            StorageError::ConcurrentModification { issue_id } => String::from_str(
                "Concurrent modification of issue ",
            ).concat(decimal_string(*issue_id).as_str()),
            StorageError::ConcurrentAllocation => String::from_str(
                "Concurrent issue id allocation",
            ),
            StorageError::Validation { message } => message.clone(),
            StorageError::Sync { message } => message.clone(),
        }
    }
}

fn git_error_text(g: &GitError) -> (r: String) {
    let (head, detail): (&str, &String) = match g {
        GitError::RepositoryNotFound { path } => ("Repository not found at path: ", path),
        GitError::InitializationFailed { message } => (
            "Failed to initialize repository: ",
            message,
        ),
        GitError::ObjectNotFound { oid } => ("Object not found: ", oid),
        GitError::InvalidObjectType { actual, .. } => ("Invalid object type: ", actual),
        GitError::ReferenceNotFound { ref_name } => ("Reference not found: ", ref_name),
        GitError::ReferenceUpdateFailed { message, .. } => ("Reference update failed: ", message),
        GitError::ReferenceCreationFailed { message, .. } => (
            "Reference creation failed: ",
            message,
        ),
        GitError::ReferenceReadFailed { message, .. } => ("Reference read failed: ", message),
        GitError::ObjectCreationFailed { message, .. } => ("Failed to create object: ", message),
        GitError::ObjectReadFailed { message, .. } => ("Failed to read object: ", message),
        GitError::InvalidObjectData { message } => ("Invalid git object data: ", message),
        GitError::TreeEntryNotFound { name } => ("Tree entry not found: ", name),
        GitError::InvalidTreeStructure { message } => ("Invalid tree structure: ", message),
        GitError::CommitParsingFailed { message } => ("Commit parsing failed: ", message),
        GitError::InvalidReferenceName { ref_name } => ("Invalid reference name: ", ref_name),
        GitError::ConcurrentReferenceUpdate { ref_name } => (
            "Concurrent reference update: ",
            ref_name,
        ),
        GitError::RepositoryLocked { message } => ("Repository locked: ", message),
        GitError::OperationFailed { message, .. } => ("Git operation failed: ", message),
    };
    String::from_str("Git error: ").concat(head).concat(detail.as_str())
}

} // verus!
