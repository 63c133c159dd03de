//! How events map onto commits: the single-file tree that holds an event, the
//! commit and reference update that append it, and the walk back along a chain.
use vstd::prelude::*;
use vstd::string::*;
use crate::errors::StorageError;
use crate::event::{IssueEvent, commit_message_text, events_view};
use crate::identity::Identity;
use crate::issue::{Issue, replay};
use crate::refs::{issue_ref_name, issue_ref_text};
use crate::text::str_eq;
use crate::timestamp::Timestamp;

verus! {

/// The mode of the event file in its tree: a regular file.
pub const EVENT_FILE_MODE: u32 = 0o100644;

/// The name of the one file in an event's tree.
pub open spec fn event_file_name() -> Seq<char> {
    "event.json"@
}

pub fn event_file_name_str() -> (r: &'static str)
    ensures
        r@ == event_file_name(),
{
    "event.json"
}

/// An entry of a tree object; object ids are hexadecimal text.
#[derive(Debug, Clone)]
pub struct TreeEntry {
    pub name: String,
    pub oid: String,
    pub mode: u32,
}

/// What the library reads from a commit object.
#[derive(Debug, Clone)]
pub struct CommitData {
    pub tree: String,
    pub parents: Vec<String>,
    pub author: Identity,
    pub message: String,
    pub timestamp: Timestamp,
}

/// Everything needed to store one event after its blob is written: the tree
/// entry, the commit's parents, author and message, and the reference update.
pub struct AppendPlan {
    pub entry: TreeEntry,
    pub parents: Vec<String>,
    pub author: Identity,
    pub message: String,
    pub time: Timestamp,
    pub ref_name: String,
    /// `None`: create the reference, which must not exist yet. `Some(h)`: move it
    /// only if it still points at `h`.
    pub expected: Option<String>,
}

/// Why a reference update was refused.
pub enum RefUpdateFailure {
    /// The reference existed, or did not hold the expected value.
    Conflict,
    /// Anything else the object store reported.
    Other(String),
}

/// The tree that holds an event: a single regular file `event.json`.
pub fn event_tree_entry(blob_oid: String) -> (r: TreeEntry)
    ensures
        r.name@ == event_file_name(),
        r.oid@ == blob_oid@,
        r.mode == EVENT_FILE_MODE,
{
    TreeEntry { name: String::from_str(event_file_name_str()), oid: blob_oid, mode: EVENT_FILE_MODE }
}

/// Plans the append of `event` to issue `issue_id` on top of `parent`: no
/// parent for the first event, which creates the reference; otherwise one
/// parent, and the reference moves only if it still points there.
pub fn plan_append(issue_id: u64, event: &IssueEvent, blob_oid: String, parent: Option<String>) -> (r:
    AppendPlan)
    ensures
        r.entry.name@ == event_file_name(),
        r.entry.oid@ == blob_oid@,
        r.entry.mode == EVENT_FILE_MODE,
        r.author@ == crate::event::event_author(event@),
        r.time == crate::event::event_time(event@),
        r.message@ == commit_message_text(event@),
        r.ref_name@ == issue_ref_text(issue_id),
        match parent {
            Some(p) => r.parents@.len() == 1 && r.parents@[0]@ == p@ && r.expected is Some
                && r.expected->Some_0@ == p@,
            None => r.parents@.len() == 0 && r.expected is None,
        },
{
    let mut parents: Vec<String> = Vec::new();
    let expected = match parent {
        Some(p) => {
            parents.push(p.clone());
            Some(p)
        },
        None => None,
    };
    AppendPlan {
        entry: event_tree_entry(blob_oid),
        parents,
        author: event.author().duplicate(),
        message: event.commit_message(),
        time: event.timestamp(),
        ref_name: issue_ref_name(issue_id),
        expected,
    }
}

/// The error that a refused reference update of an append becomes: a conflict
/// is a concurrent modification of the issue.
pub fn append_failure(issue_id: u64, failure: RefUpdateFailure) -> (r: StorageError)
    ensures
        failure is Conflict ==> r == (StorageError::ConcurrentModification { issue_id }),
        failure is Other ==> r is Git,
{
    match failure {
        RefUpdateFailure::Conflict => StorageError::ConcurrentModification { issue_id },
        RefUpdateFailure::Other(message) => StorageError::Git(
            crate::errors::GitError::ReferenceUpdateFailed {
                ref_name: issue_ref_name(issue_id),
                message,
            },
        ),
    }
}

/// The blob of an event's tree: the tree must hold exactly one entry, `event.json`.
pub fn event_blob_oid(entries: &Vec<TreeEntry>) -> (r: Result<String, StorageError>)
    ensures
        r is Ok <==> entries@.len() == 1 && entries@[0].name@ == event_file_name(),
        r is Ok ==> r->Ok_0@ == entries@[0].oid@,
        r is Err ==> r->Err_0 is InvalidEventSequence,
{
    if entries.len() != 1 {
        return Err(
            StorageError::invalid_event_sequence("Event tree must hold exactly one entry"),
        );
    }
    if !str_eq(entries[0].name.as_str(), event_file_name_str()) {
        return Err(StorageError::invalid_event_sequence("No event.json in commit tree"));
    }
    Ok(entries[0].oid.clone())
}

/// The commit before this one in its chain: its first parent.
pub fn previous_commit(commit: &CommitData) -> (r: Option<String>)
    ensures
        commit.parents@.len() == 0 ==> r is None,
        commit.parents@.len() > 0 ==> r is Some && r->Some_0@ == commit.parents@[0]@,
{
    if commit.parents.len() == 0 {
        None
    } else {
        Some(commit.parents[0].clone())
    }
}

/// Puts events collected head first (newest first) into chain order, oldest first.
pub fn oldest_first(newest_first: Vec<IssueEvent>) -> (r: Vec<IssueEvent>)
    ensures
        events_view(r@) == events_view(newest_first@).reverse(),
{
    let ghost orig = newest_first@;
    let mut rest = newest_first;
    let mut r: Vec<IssueEvent> = Vec::new();
    while rest.len() > 0
        invariant
            rest@ == orig.subrange(0, rest@.len() as int),
            r@.len() + rest@.len() == orig.len(),
            forall|k: int| 0 <= k < r@.len() ==> r@[k] == orig[orig.len() - 1 - k],
        decreases rest@.len(),
    {
        let e = rest.pop().unwrap();
        r.push(e);
    }
    assert(events_view(r@) =~= events_view(orig).reverse());
    r
}

/// The issue that a chain describes, oldest event first; no events at all
/// means the issue does not exist.
pub fn issue_from_chain(issue_id: u64, events: &Vec<IssueEvent>) -> (r: Result<Issue, StorageError>)
    ensures
        events@.len() == 0 ==> r == Err::<Issue, StorageError>(
            StorageError::IssueNotFound { issue_id },
        ),
        events@.len() > 0 ==> (r is Ok <==> replay(issue_id, events_view(events@)) is Some),
        r is Ok ==> r->Ok_0@ == replay(issue_id, events_view(events@))->Some_0,
        events@.len() > 0 && r is Err ==> r->Err_0 is InvalidEventSequence,
{
    if events.len() == 0 {
        return Err(StorageError::issue_not_found(issue_id));
    }
    Issue::from_events(issue_id, events.as_slice())
}

/// Why a reference update that the object store refused failed, from the value
/// the reference holds afterwards: when it no longer matches what the update
/// expected (for a creation: when it exists), another writer got there first.
pub fn ref_update_failure(
    current: &Option<String>,
    expected: &Option<String>,
    message: String,
) -> (r: RefUpdateFailure)
    ensures
        (r is Conflict) <==> crate::sync::opt_str_view(*current) != crate::sync::opt_str_view(
            *expected,
        ),
        r is Other ==> r->Other_0@ == message@,
{
    let same = match (current, expected) {
        (Some(c), Some(e)) => *c == *e,
        (None, None) => true,
        _ => false,
    };
    if same {
        RefUpdateFailure::Other(message)
    } else {
        RefUpdateFailure::Conflict
    }
}

} // verus!
