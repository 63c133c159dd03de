//! Synchronisation with a remote: how each reference compares with the remote
//! one, what to do about it, and the summary of what was done.
use vstd::prelude::*;
use vstd::string::*;
use crate::errors::StorageError;
use crate::issue::strings_view;
use crate::refs::{issue_ref_name, issue_ref_text, issue_id_of_ref, ref_issue_id};

verus! {

/// How a local reference stands against the remote one.
#[derive(Debug, Clone, Copy, PartialEq, Eq, Structural)]
pub enum RefComparisonResult {
    /// Local is ahead (safe to push).
    FastForward { local_commits: u32 },
    /// Remote is ahead.
    Behind { remote_commits: u32 },
    /// Each side has commits the other lacks.
    Diverged { local_commits: u32, remote_commits: u32 },
    /// Both point at the same commit.
    UpToDate,
    /// The remote lacks the reference.
    NewRef,
    /// Only the remote has the reference.
    LocallyDeleted,
}

/// A reference considered for synchronisation.
#[derive(Debug, Clone)]
pub struct SyncRef {
    pub ref_name: String,
    pub local_oid: Option<String>,
    pub remote_oid: Option<String>,
    pub comparison: RefComparisonResult,
    pub issue_id: Option<u64>,
}

/// What a synchronisation did.
#[derive(Debug)]
pub struct SyncSummary {
    pub pushed_refs: Vec<String>,
    pub skipped_refs: Vec<String>,
    /// Reference name and error message.
    pub failed_refs: Vec<(String, String)>,
    pub conflicts: Vec<String>,
}

/// The options of a synchronisation.
#[derive(Debug, Clone)]
pub struct SyncArgs {
    pub remote: Option<String>,
    pub dry_run: bool,
    pub force: bool,
    pub force_without_lease: bool,
    pub issues: Option<Vec<u64>>,
    pub verbose: bool,
}

/// What to do with one reference.
#[derive(Debug, Clone, Copy, PartialEq, Eq, Structural)]
pub enum PushAction {
    /// Leave it alone.
    Skip,
    /// Push it; `force` overwrites the remote, `lease` only if the remote still
    /// holds the value observed before.
    Push { force: bool, lease: bool },
    /// It needs a force flag that was not given.
    Conflict,
}

/// The classification of a reference from its local and remote values and,
/// when they differ, the commits only each side has.
pub open spec fn classify_spec(
    local: Option<Seq<char>>,
    remote: Option<Seq<char>>,
    local_only: u32,
    remote_only: u32,
) -> Option<RefComparisonResult> {
    match (local, remote) {
        (None, None) => None,
        (None, Some(_)) => Some(RefComparisonResult::LocallyDeleted),
        (Some(_), None) => Some(RefComparisonResult::NewRef),
        (Some(l), Some(r)) => if l == r {
            Some(RefComparisonResult::UpToDate)
        } else if remote_only == 0 {
            Some(RefComparisonResult::FastForward { local_commits: local_only })
        } else if local_only == 0 {
            Some(RefComparisonResult::Behind { remote_commits: remote_only })
        } else {
            Some(
                RefComparisonResult::Diverged {
                    local_commits: local_only,
                    remote_commits: remote_only,
                },
            )
        },
    }
}

/// The push policy: up-to-date and locally deleted references are skipped, new
/// and fast-forward ones pushed plainly, and the others need a force flag.
pub open spec fn action_spec(c: RefComparisonResult, force: bool, force_without_lease: bool) -> PushAction {
    match c {
        RefComparisonResult::UpToDate | RefComparisonResult::LocallyDeleted => PushAction::Skip,
        RefComparisonResult::NewRef | RefComparisonResult::FastForward { .. } => PushAction::Push {
            force: false,
            lease: false,
        },
        RefComparisonResult::Behind { .. } | RefComparisonResult::Diverged { .. } => if force {
            PushAction::Push { force: true, lease: true }
        } else if force_without_lease {
            PushAction::Push { force: true, lease: false }
        } else {
            PushAction::Conflict
        },
    }
}

/// The view of an optional string.
pub open spec fn opt_str_view(o: Option<String>) -> Option<Seq<char>> {
    match o {
        Some(s) => Some(s@),
        None => None,
    }
}

fn same_opt_str(a: &Option<String>, b: &Option<String>) -> (r: bool)
    ensures
        r == (opt_str_view(*a) == opt_str_view(*b)),
{
    match (a, b) {
        (Some(x), Some(y)) => *x == *y,
        (None, None) => true,
        _ => false,
    }
}

/// Classifies a reference. `local_only` and `remote_only` count the commits
/// reachable from one side and not the other; they matter only when both
/// sides exist and differ.
pub fn classify_ref(
    local_oid: &Option<String>,
    remote_oid: &Option<String>,
    local_only: u32,
    remote_only: u32,
) -> (r: Option<RefComparisonResult>)
    ensures
        r == classify_spec(opt_str_view(*local_oid), opt_str_view(*remote_oid), local_only, remote_only),
{
    match (local_oid, remote_oid) {
        (None, None) => None,
        (None, Some(_)) => Some(RefComparisonResult::LocallyDeleted),
        (Some(_), None) => Some(RefComparisonResult::NewRef),
        (Some(_), Some(_)) => {
            if same_opt_str(local_oid, remote_oid) {
                Some(RefComparisonResult::UpToDate)
            } else if remote_only == 0 {
                Some(RefComparisonResult::FastForward { local_commits: local_only })
            } else if local_only == 0 {
                Some(RefComparisonResult::Behind { remote_commits: remote_only })
            } else {
                Some(
                    RefComparisonResult::Diverged {
                        local_commits: local_only,
                        remote_commits: remote_only,
                    },
                )
            }
        },
    }
}

impl SyncRef {
    /// The reference with its classification and, for an issue reference, its
    /// issue id; nothing when neither side has it.
    pub fn new(
        ref_name: String,
        local_oid: Option<String>,
        remote_oid: Option<String>,
        local_only: u32,
        remote_only: u32,
    ) -> (r: Option<SyncRef>)
        ensures
            r is None <==> classify_spec(
                opt_str_view(local_oid),
                opt_str_view(remote_oid),
                local_only,
                remote_only,
            ) is None,
            r is Some ==> ({
                let s = r->Some_0;
                &&& s.ref_name@ == ref_name@
                &&& opt_str_view(s.local_oid) == opt_str_view(local_oid)
                &&& opt_str_view(s.remote_oid) == opt_str_view(remote_oid)
                &&& Some(s.comparison) == classify_spec(
                    opt_str_view(local_oid),
                    opt_str_view(remote_oid),
                    local_only,
                    remote_only,
                )
                &&& s.issue_id == ref_issue_id(ref_name@)
            }),
    {
        match classify_ref(&local_oid, &remote_oid, local_only, remote_only) {
            None => None,
            Some(comparison) => {
                let issue_id = issue_id_of_ref(ref_name.as_str());
                Some(SyncRef { ref_name, local_oid, remote_oid, comparison, issue_id })
            },
        }
    }
}

/// Refuses the two force flags together.
pub fn check_force_flags(force: bool, force_without_lease: bool) -> (r: Result<(), StorageError>)
    ensures
        r is Ok <==> !(force && force_without_lease),
        r is Err ==> r->Err_0 is Sync,
{
    if force && force_without_lease {
        Err(
            StorageError::Sync {
                message: String::from_str("Cannot specify both --force and --force-without-lease"),
            },
        )
    } else {
        Ok(())
    }
}

/// The remote named by the caller, if it exists.
pub fn check_remote(name: &str, exists: bool) -> (r: Result<String, StorageError>)
    ensures
        r is Ok <==> exists,
        r is Ok ==> r->Ok_0@ == name@,
        r is Err ==> r->Err_0 is Sync,
{
    if exists {
        Ok(String::from_str(name))
    } else {
        Err(
            StorageError::Sync {
                message: String::from_str("Remote '").concat(name).concat("' does not exist"),
            },
        )
    }
}

/// What to do with a reference, given its classification and the force flags.
pub fn push_action(comparison: RefComparisonResult, force: bool, force_without_lease: bool) -> (r:
    PushAction)
    ensures
        r == action_spec(comparison, force, force_without_lease),
{
    match comparison {
        RefComparisonResult::UpToDate | RefComparisonResult::LocallyDeleted => PushAction::Skip,
        RefComparisonResult::NewRef | RefComparisonResult::FastForward { .. } => PushAction::Push {
            force: false,
            lease: false,
        },
        RefComparisonResult::Behind { .. } | RefComparisonResult::Diverged { .. } => {
            if force {
                PushAction::Push { force: true, lease: true }
            } else if force_without_lease {
                PushAction::Push { force: true, lease: false }
            } else {
                PushAction::Conflict
            }
        },
    }
}

/// The references of the requested issues, in the order given. `present[i]`
/// says whether issue `ids[i]` has a local reference; the first that has none
/// is reported as not found.
pub fn refs_for_issues(ids: &Vec<u64>, present: &Vec<bool>) -> (r: Result<Vec<String>, StorageError>)
    requires
        ids@.len() == present@.len(),
    ensures
        r is Ok <==> forall|i: int| 0 <= i < present@.len() ==> #[trigger] present@[i],
        r is Ok ==> r->Ok_0@.len() == ids@.len() && forall|i: int|
            0 <= i < ids@.len() ==> (#[trigger] r->Ok_0@[i])@ == issue_ref_text(ids@[i]),
        r is Err ==> exists|i: int|
            0 <= i < ids@.len() && !present@[i] && (forall|j: int| 0 <= j < i ==> present@[j])
                && r->Err_0 == (StorageError::IssueNotFound { issue_id: #[trigger] ids@[i] }),
{
    let mut refs: Vec<String> = Vec::new();
    let mut i: usize = 0;
    while i < ids.len()
        invariant
            ids@.len() == present@.len(),
            i <= ids@.len(),
            forall|k: int| 0 <= k < i ==> #[trigger] present@[k],
            refs@.len() == i,
            forall|k: int| 0 <= k < i ==> (#[trigger] refs@[k])@ == issue_ref_text(ids@[k]),
        decreases ids@.len() - i,
    {
        if !present[i] {
            return Err(StorageError::issue_not_found(ids[i]));
        }
        refs.push(issue_ref_name(ids[i]));
        i = i + 1;
    }
    Ok(refs)
}

/// All references to consider when no issues are named: the issue references,
/// then the metadata references.
pub fn all_sync_refs(issue_refs: Vec<String>, meta_refs: Vec<String>) -> (r: Vec<String>)
    ensures
        strings_view(r@) == strings_view(issue_refs@) + strings_view(meta_refs@),
{
    let mut r = issue_refs;
    let mut more = meta_refs;
    let ghost a = r@;
    let ghost b = more@;
    r.append(&mut more);
    assert(strings_view(r@) =~= strings_view(a) + strings_view(b));
    r
}

impl Default for SyncSummary {
    fn default() -> (r: SyncSummary)
        ensures
            r.pushed_refs@.len() == 0,
            r.skipped_refs@.len() == 0,
            r.failed_refs@.len() == 0,
            r.conflicts@.len() == 0,
    {
        SyncSummary {
            pushed_refs: Vec::new(),
            skipped_refs: Vec::new(),
            failed_refs: Vec::new(),
            conflicts: Vec::new(),
        }
    }
}

impl SyncSummary {
    /// Records a reference that needed nothing.
    pub fn record_skipped(&mut self, ref_name: String)
        ensures
            final(self).skipped_refs@ == old(self).skipped_refs@.push(ref_name),
            final(self).pushed_refs@ == old(self).pushed_refs@,
            final(self).failed_refs@ == old(self).failed_refs@,
            final(self).conflicts@ == old(self).conflicts@,
    {
        self.skipped_refs.push(ref_name);
    }

    /// Records a reference that needed a force flag that was not given.
    pub fn record_conflict(&mut self, ref_name: String)
        ensures
            final(self).conflicts@ == old(self).conflicts@.push(ref_name),
            final(self).pushed_refs@ == old(self).pushed_refs@,
            final(self).failed_refs@ == old(self).failed_refs@,
            final(self).skipped_refs@ == old(self).skipped_refs@,
    {
        self.conflicts.push(ref_name);
    }

    /// Records how a push went: pushed, or failed with the given message.
    pub fn record_push(&mut self, ref_name: String, outcome: Result<(), String>)
        ensures
            outcome is Ok ==> final(self).pushed_refs@ == old(self).pushed_refs@.push(ref_name)
                && final(self).failed_refs@ == old(self).failed_refs@,
            outcome is Err ==> final(self).failed_refs@ == old(self).failed_refs@.push(
                (ref_name, outcome->Err_0),
            ) && final(self).pushed_refs@ == old(self).pushed_refs@,
            final(self).skipped_refs@ == old(self).skipped_refs@,
            final(self).conflicts@ == old(self).conflicts@,
    {
        match outcome {
            Ok(()) => self.pushed_refs.push(ref_name),
            Err(message) => self.failed_refs.push((ref_name, message)),
        }
    }

    /// The overall result: conflicts fail the synchronisation unless a force
    /// flag was given.
    pub fn outcome(&self, force: bool, force_without_lease: bool) -> (r: Result<(), StorageError>)
        ensures
            r is Err <==> self.conflicts@.len() > 0 && !force && !force_without_lease,
            r is Err ==> r->Err_0 is Sync,
    {
        if self.conflicts.len() > 0 && !force && !force_without_lease {
            Err(
                StorageError::Sync {
                    message: String::from_str(
                        "Cannot sync due to conflicts. Use --force for force-with-lease or --force-without-lease for unsafe force push",
                    ),
                },
            )
        } else {
            Ok(())
        }
    }
}

/// The remote to push to when none is named: the one configured for the
/// current branch, else `origin` when that remote exists.
pub fn choose_push_remote(configured: Option<String>, remotes: &Vec<String>) -> (r: Result<
    String,
    StorageError,
>)
    ensures
        configured is Some ==> r is Ok && r->Ok_0@ == configured->Some_0@,
        configured is None ==> (r is Ok <==> strings_view(remotes@).contains("origin"@)),
        configured is None && r is Ok ==> r->Ok_0@ == "origin"@,
        r is Err ==> r->Err_0 is Sync,
{
    match configured {
        Some(name) => Ok(name),
        None => {
            if crate::issue::contains_string(remotes, "origin") {
                Ok(String::from_str("origin"))
            } else {
                Err(StorageError::Sync { message: String::from_str("NoDefaultRemote: no remote is configured for pushing") })
            }
        },
    }
}

} // verus!
