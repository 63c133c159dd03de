//! The commands of the tracker and their options, as plain values.
use vstd::prelude::*;
use crate::edit::EditArgs;
use crate::sync::SyncArgs;

verus! {

/// Options of `create`.
#[derive(Debug, Clone)]
pub struct CreateArgs {
    pub title: String,
    pub description: Option<String>,
    pub author_name: Option<String>,
    pub author_email: Option<String>,
}

/// Options of `list`.
#[derive(Debug, Clone)]
pub struct ListArgs {
    pub search: Option<String>,
    pub status: Option<String>,
    pub compact: bool,
    pub all: bool,
}

/// Options of `show`.
#[derive(Debug, Clone)]
pub struct ShowArgs {
    pub id: u64,
}

/// Options of `status`.
#[derive(Debug, Clone)]
pub struct StatusArgs {
    pub id: u64,
    pub status: String,
    pub author_name: Option<String>,
    pub author_email: Option<String>,
}

/// Options of `label`: `+name` adds, `-name` removes.
#[derive(Debug, Clone)]
pub struct LabelArgs {
    pub id: u64,
    pub labels: Vec<String>,
    pub author_name: Option<String>,
    pub author_email: Option<String>,
}

/// Options of `assign`.
#[derive(Debug, Clone)]
pub struct AssignArgs {
    pub id: u64,
    pub assignees: Vec<String>,
}

/// Options of `unassign`; no address removes every assignee.
#[derive(Debug, Clone)]
pub struct UnassignArgs {
    pub id: u64,
    pub assignees: Vec<String>,
}

/// A command of the tracker.
#[derive(Debug, Clone)]
pub enum Commands {
    Create(CreateArgs),
    List(ListArgs),
    Show(ShowArgs),
    Status(StatusArgs),
    Edit(EditArgs),
    Label(LabelArgs),
    Assign(AssignArgs),
    Unassign(UnassignArgs),
    Sync(SyncArgs),
}

/// A command line: the command, and the repository path if one was given.
#[derive(Debug, Clone)]
pub struct Cli {
    pub command: Commands,
    pub repo: Option<String>,
}

/// The description a new issue gets: the one given, or empty.
pub fn description_or_empty(description: Option<String>) -> (r: String)
    ensures
        description is Some ==> r@ == description->Some_0@,
        description is None ==> r@.len() == 0,
{
    match description {
        Some(d) => d,
        None => String::new(),
    }
}

} // verus!
