//! An offline-first issue tracker whose issues are chains of immutable events.
//!
//! The library holds the domain model, the fold that rebuilds an issue from its
//! events, the decisions behind every mutation, reference naming, the issue-id
//! counter, label and edit validation, and the classification and push policy
//! used when synchronising with a remote.
pub mod text;
pub mod identity;
pub mod errors;
pub mod status;
pub mod priority;
pub mod timestamp;
pub mod comment;
pub mod event;
pub mod issue;
pub mod mutation;
pub mod labels;
pub mod refs;
pub mod allocator;
pub mod store;
pub mod sync;
pub mod env;
pub mod output;
pub mod edit;
pub mod assign;
pub mod list;
pub mod args;
