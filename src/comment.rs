//! Comments on an issue.
use vstd::prelude::*;
use crate::identity::{Identity, IdentityView};
use crate::timestamp::Timestamp;

verus! {

/// The value of a comment.
pub struct CommentView {
    pub id: Seq<char>,
    pub content: Seq<char>,
    pub author: IdentityView,
    pub created_at: Timestamp,
}

/// A comment; its id is `{issue_id}-{seq}` with `seq` counted from 1 within the issue.
#[derive(Debug, Clone)]
pub struct Comment {
    pub id: String,
    pub content: String,
    pub author: Identity,
    pub created_at: Timestamp,
}

impl View for Comment {
    type V = CommentView;

    open spec fn view(&self) -> CommentView {
        CommentView {
            id: self.id@,
            content: self.content@,
            author: self.author@,
            created_at: self.created_at,
        }
    }
}

/// The views of a sequence of comments, in order.
pub open spec fn comments_view(s: Seq<Comment>) -> Seq<CommentView> {
    s.map_values(|c: Comment| c@)
}

impl Comment {
    /// A comment written at `created_at`.
    pub fn new(id: String, content: String, author: Identity, created_at: Timestamp) -> (r: Comment)
        ensures
            r.id@ == id@,
            r.content@ == content@,
            r.author@ == author@,
            r.created_at == created_at,
    {
        Comment { id, content, author, created_at }
    }

    /// A copy that keeps every field.
    pub fn duplicate(&self) -> (r: Comment)
        ensures
            r@ == self@,
    {
        Comment {
            id: self.id.clone(),
            content: self.content.clone(),
            author: self.author.duplicate(),
            created_at: self.created_at,
        }
    }
}

} // verus!
