//! The events that make up an issue's history.
use vstd::prelude::*;
use vstd::string::*;
use crate::identity::{Identity, IdentityView, identities_view, opt_identity_view};
use crate::priority::{Priority, priority_text};
use crate::status::{IssueStatus, status_text};
use crate::text::{decimal, decimal_string};
use crate::timestamp::Timestamp;

verus! {

/// The value of an event.
pub enum EventView {
    Created { title: Seq<char>, description: Seq<char>, author: IdentityView, timestamp: Timestamp },
    StatusChanged { from: IssueStatus, to: IssueStatus, author: IdentityView, timestamp: Timestamp },
    CommentAdded {
        comment_id: Seq<char>,
        content: Seq<char>,
        author: IdentityView,
        timestamp: Timestamp,
    },
    LabelAdded { label: Seq<char>, author: IdentityView, timestamp: Timestamp },
    LabelRemoved { label: Seq<char>, author: IdentityView, timestamp: Timestamp },
    TitleChanged {
        old_title: Seq<char>,
        new_title: Seq<char>,
        author: IdentityView,
        timestamp: Timestamp,
    },
    AssigneeChanged {
        old_assignee: Option<IdentityView>,
        new_assignee: Option<IdentityView>,
        author: IdentityView,
        timestamp: Timestamp,
    },
    AssigneesChanged {
        old_assignees: Seq<IdentityView>,
        new_assignees: Seq<IdentityView>,
        author: IdentityView,
        timestamp: Timestamp,
    },
    DescriptionChanged {
        old_description: Seq<char>,
        new_description: Seq<char>,
        author: IdentityView,
        timestamp: Timestamp,
    },
    PriorityChanged {
        old_priority: Priority,
        new_priority: Priority,
        author: IdentityView,
        timestamp: Timestamp,
    },
    CreatedByChanged {
        old_created_by: IdentityView,
        new_created_by: IdentityView,
        author: IdentityView,
        timestamp: Timestamp,
    },
}

/// One change to an issue. Variants that replace a value carry the old value
/// too, so that each event is a complete audit record; replay reads only the new one.
#[derive(Debug, Clone)]
pub enum IssueEvent {
    Created { title: String, description: String, author: Identity, timestamp: Timestamp },
    StatusChanged { from: IssueStatus, to: IssueStatus, author: Identity, timestamp: Timestamp },
    CommentAdded { comment_id: String, content: String, author: Identity, timestamp: Timestamp },
    LabelAdded { label: String, author: Identity, timestamp: Timestamp },
    LabelRemoved { label: String, author: Identity, timestamp: Timestamp },
    TitleChanged { old_title: String, new_title: String, author: Identity, timestamp: Timestamp },
    AssigneeChanged {
        old_assignee: Option<Identity>,
        new_assignee: Option<Identity>,
        author: Identity,
        timestamp: Timestamp,
    },
    AssigneesChanged {
        old_assignees: Vec<Identity>,
        new_assignees: Vec<Identity>,
        author: Identity,
        timestamp: Timestamp,
    },
    DescriptionChanged {
        old_description: String,
        new_description: String,
        author: Identity,
        timestamp: Timestamp,
    },
    PriorityChanged {
        old_priority: Priority,
        new_priority: Priority,
        author: Identity,
        timestamp: Timestamp,
    },
    CreatedByChanged {
        old_created_by: Identity,
        new_created_by: Identity,
        author: Identity,
        timestamp: Timestamp,
    },
}

impl View for IssueEvent {
    type V = EventView;

    open spec fn view(&self) -> EventView {
        match self {
            IssueEvent::Created { title, description, author, timestamp } => EventView::Created {
                title: title@,
                description: description@,
                author: author@,
                timestamp: *timestamp,
            },
            IssueEvent::StatusChanged { from, to, author, timestamp } => EventView::StatusChanged {
                from: *from,
                to: *to,
                author: author@,
                timestamp: *timestamp,
            },
            IssueEvent::CommentAdded { comment_id, content, author, timestamp } =>
                EventView::CommentAdded {
                comment_id: comment_id@,
                content: content@,
                author: author@,
                timestamp: *timestamp,
            },
            IssueEvent::LabelAdded { label, author, timestamp } => EventView::LabelAdded {
                label: label@,
                author: author@,
                timestamp: *timestamp,
            },
            IssueEvent::LabelRemoved { label, author, timestamp } => EventView::LabelRemoved {
                label: label@,
                author: author@,
                timestamp: *timestamp,
            },
            IssueEvent::TitleChanged { old_title, new_title, author, timestamp } =>
                EventView::TitleChanged {
                old_title: old_title@,
                new_title: new_title@,
                author: author@,
                timestamp: *timestamp,
            },
            IssueEvent::AssigneeChanged { old_assignee, new_assignee, author, timestamp } =>
                EventView::AssigneeChanged {
                old_assignee: opt_identity_view(*old_assignee),
                new_assignee: opt_identity_view(*new_assignee),
                author: author@,
                timestamp: *timestamp,
            },
            IssueEvent::AssigneesChanged { old_assignees, new_assignees, author, timestamp } =>
                EventView::AssigneesChanged {
                old_assignees: identities_view(old_assignees@),
                new_assignees: identities_view(new_assignees@),
                author: author@,
                timestamp: *timestamp,
            },
            IssueEvent::DescriptionChanged { old_description, new_description, author, timestamp } =>
                EventView::DescriptionChanged {
                old_description: old_description@,
                new_description: new_description@,
                author: author@,
                timestamp: *timestamp,
            },
            IssueEvent::PriorityChanged { old_priority, new_priority, author, timestamp } =>
                EventView::PriorityChanged {
                old_priority: *old_priority,
                new_priority: *new_priority,
                author: author@,
                timestamp: *timestamp,
            },
            IssueEvent::CreatedByChanged { old_created_by, new_created_by, author, timestamp } =>
                EventView::CreatedByChanged {
                old_created_by: old_created_by@,
                new_created_by: new_created_by@,
                author: author@,
                timestamp: *timestamp,
            },
        }
    }
}

/// The views of a sequence of events, in order.
pub open spec fn events_view(s: Seq<IssueEvent>) -> Seq<EventView> {
    s.map_values(|e: IssueEvent| e@)
}

/// Who wrote an event.
pub open spec fn event_author(e: EventView) -> IdentityView {
    match e {
        EventView::Created { author, .. } => author,
        EventView::StatusChanged { author, .. } => author,
        EventView::CommentAdded { author, .. } => author,
        EventView::LabelAdded { author, .. } => author,
        EventView::LabelRemoved { author, .. } => author,
        EventView::TitleChanged { author, .. } => author,
        EventView::AssigneeChanged { author, .. } => author,
        EventView::AssigneesChanged { author, .. } => author,
        EventView::DescriptionChanged { author, .. } => author,
        EventView::PriorityChanged { author, .. } => author,
        EventView::CreatedByChanged { author, .. } => author,
    }
}

/// When an event happened.
pub open spec fn event_time(e: EventView) -> Timestamp {
    match e {
        EventView::Created { timestamp, .. } => timestamp,
        EventView::StatusChanged { timestamp, .. } => timestamp,
        EventView::CommentAdded { timestamp, .. } => timestamp,
        EventView::LabelAdded { timestamp, .. } => timestamp,
        EventView::LabelRemoved { timestamp, .. } => timestamp,
        EventView::TitleChanged { timestamp, .. } => timestamp,
        EventView::AssigneeChanged { timestamp, .. } => timestamp,
        EventView::AssigneesChanged { timestamp, .. } => timestamp,
        EventView::DescriptionChanged { timestamp, .. } => timestamp,
        EventView::PriorityChanged { timestamp, .. } => timestamp,
        EventView::CreatedByChanged { timestamp, .. } => timestamp,
    }
}

/// The summary line of the commit that stores an event.
pub open spec fn commit_message_text(e: EventView) -> Seq<char> {
    match e {
        EventView::Created { title, .. } => "Created: "@ + title,
        EventView::StatusChanged { from, to, .. } => "StatusChanged: "@ + status_text(from)
            + " → "@ + status_text(to),
        EventView::CommentAdded { comment_id, .. } => "CommentAdded: "@ + comment_id,
        EventView::LabelAdded { label, .. } => "LabelAdded: "@ + label,
        EventView::LabelRemoved { label, .. } => "LabelRemoved: "@ + label,
        EventView::TitleChanged { new_title, .. } => "TitleChanged: "@ + new_title,
        EventView::AssigneeChanged { new_assignee, .. } => match new_assignee {
            Some(i) => "AssigneeChanged: "@ + i.name,
            None => "AssigneeChanged: unassigned"@,
        },
        EventView::AssigneesChanged { new_assignees, .. } => if new_assignees.len() == 0 {
            "AssigneesChanged: unassigned all"@
        } else if new_assignees.len() == 1 {
            "AssigneesChanged: "@ + new_assignees[0].name
        } else {
            "AssigneesChanged: "@ + decimal(new_assignees.len()) + " assignees"@
        },
        EventView::DescriptionChanged { .. } => "DescriptionChanged"@,
        EventView::PriorityChanged { old_priority, new_priority, .. } => "PriorityChanged: "@
            + priority_text(old_priority) + " → "@ + priority_text(new_priority),
        EventView::CreatedByChanged { new_created_by, .. } => "CreatedByChanged: "@
            + new_created_by.email,
    }
}

impl IssueEvent {
    pub fn created(title: String, description: String, author: Identity, timestamp: Timestamp) -> (r: IssueEvent)
        ensures
            r@ matches EventView::Created { title: t, description: d, author: a, timestamp: ts } && t
                == title@ && d == description@ && a == author@ && ts == timestamp,
    {
        IssueEvent::Created { title, description, author, timestamp }
    }

    pub fn status_changed(from: IssueStatus, to: IssueStatus, author: Identity, timestamp: Timestamp) -> (r: IssueEvent)
        ensures
            r@ matches EventView::StatusChanged { from: f, to: t, author: a, timestamp: ts } && f == from && t
                == to && a == author@ && ts == timestamp,
    {
        IssueEvent::StatusChanged { from, to, author, timestamp }
    }

    pub fn comment_added(comment_id: String, content: String, author: Identity, timestamp: Timestamp) -> (r: IssueEvent)
        ensures
            r@ matches EventView::CommentAdded { comment_id: i, content: c, author: a, timestamp: ts } && i
                == comment_id@ && c == content@ && a == author@ && ts == timestamp,
    {
        IssueEvent::CommentAdded { comment_id, content, author, timestamp }
    }

    pub fn label_added(label: String, author: Identity, timestamp: Timestamp) -> (r: IssueEvent)
        ensures
            r@ matches EventView::LabelAdded { label: l, author: a, timestamp: ts } && l == label@ && a
                == author@ && ts == timestamp,
    {
        IssueEvent::LabelAdded { label, author, timestamp }
    }

    pub fn label_removed(label: String, author: Identity, timestamp: Timestamp) -> (r: IssueEvent)
        ensures
            r@ matches EventView::LabelRemoved { label: l, author: a, timestamp: ts } && l == label@ && a
                == author@ && ts == timestamp,
    {
        IssueEvent::LabelRemoved { label, author, timestamp }
    }

    pub fn title_changed(old_title: String, new_title: String, author: Identity, timestamp: Timestamp) -> (r: IssueEvent)
        ensures
            r@ matches EventView::TitleChanged { old_title: o, new_title: n, author: a, timestamp: ts } && o
                == old_title@ && n == new_title@ && a == author@ && ts == timestamp,
    {
        IssueEvent::TitleChanged { old_title, new_title, author, timestamp }
    }

    pub fn assignee_changed(
        old_assignee: Option<Identity>,
        new_assignee: Option<Identity>,
        author: Identity,
        timestamp: Timestamp,
    ) -> (r: IssueEvent)
        ensures
            r@ matches EventView::AssigneeChanged {
                old_assignee: o,
                new_assignee: n,
                author: a,
                timestamp: ts,
            } && o == opt_identity_view(old_assignee) && n == opt_identity_view(new_assignee) && a
                == author@ && ts == timestamp,
    {
        IssueEvent::AssigneeChanged {
            old_assignee,
            new_assignee,
            author,
            timestamp,
        }
    }

    pub fn assignees_changed(
        old_assignees: Vec<Identity>,
        new_assignees: Vec<Identity>,
        author: Identity,
        timestamp: Timestamp,
    ) -> (r: IssueEvent)
        ensures
            r@ matches EventView::AssigneesChanged {
                old_assignees: o,
                new_assignees: n,
                author: a,
                timestamp: ts,
            } && o == identities_view(old_assignees@) && n == identities_view(new_assignees@) && a
                == author@ && ts == timestamp,
    {
        IssueEvent::AssigneesChanged {
            old_assignees,
            new_assignees,
            author,
            timestamp,
        }
    }

    pub fn description_changed(
        old_description: String,
        new_description: String,
        author: Identity,
        timestamp: Timestamp,
    ) -> (r: IssueEvent)
        ensures
            r@ matches EventView::DescriptionChanged {
                old_description: o,
                new_description: n,
                author: a,
                timestamp: ts,
            } && o == old_description@ && n == new_description@ && a == author@ && ts == timestamp,
    {
        IssueEvent::DescriptionChanged {
            old_description,
            new_description,
            author,
            timestamp,
        }
    }

    pub fn priority_changed(old_priority: Priority, new_priority: Priority, author: Identity, timestamp: Timestamp) -> (r:
        IssueEvent)
        ensures
            r@ matches EventView::PriorityChanged {
                old_priority: o,
                new_priority: n,
                author: a,
                timestamp: ts,
            } && o == old_priority && n == new_priority && a == author@ && ts == timestamp,
    {
        IssueEvent::PriorityChanged {
            old_priority,
            new_priority,
            author,
            timestamp,
        }
    }

    pub fn created_by_changed(old_created_by: Identity, new_created_by: Identity, author: Identity, timestamp: Timestamp) -> (r:
        IssueEvent)
        ensures
            r@ matches EventView::CreatedByChanged {
                old_created_by: o,
                new_created_by: n,
                author: a,
                timestamp: ts,
            } && o == old_created_by@ && n == new_created_by@ && a == author@ && ts == timestamp,
    {
        IssueEvent::CreatedByChanged {
            old_created_by,
            new_created_by,
            author,
            timestamp,
        }
    }

    /// Who wrote the event.
    pub fn author(&self) -> (r: &Identity)
        ensures
            r@ == event_author(self@),
    {
        match self {
            IssueEvent::Created { author, .. } => author,
            IssueEvent::StatusChanged { author, .. } => author,
            IssueEvent::CommentAdded { author, .. } => author,
            IssueEvent::LabelAdded { author, .. } => author,
            IssueEvent::LabelRemoved { author, .. } => author,
            IssueEvent::TitleChanged { author, .. } => author,
            IssueEvent::AssigneeChanged { author, .. } => author,
            IssueEvent::AssigneesChanged { author, .. } => author,
            IssueEvent::DescriptionChanged { author, .. } => author,
            IssueEvent::PriorityChanged { author, .. } => author,
            IssueEvent::CreatedByChanged { author, .. } => author,
        }
    }

    /// When the event happened.
    pub fn timestamp(&self) -> (r: Timestamp)
        ensures
            r == event_time(self@),
    {
        match self {
            IssueEvent::Created { timestamp, .. } => *timestamp,
            IssueEvent::StatusChanged { timestamp, .. } => *timestamp,
            IssueEvent::CommentAdded { timestamp, .. } => *timestamp,
            IssueEvent::LabelAdded { timestamp, .. } => *timestamp,
            IssueEvent::LabelRemoved { timestamp, .. } => *timestamp,
            IssueEvent::TitleChanged { timestamp, .. } => *timestamp,
            IssueEvent::AssigneeChanged { timestamp, .. } => *timestamp,
            IssueEvent::AssigneesChanged { timestamp, .. } => *timestamp,
            IssueEvent::DescriptionChanged { timestamp, .. } => *timestamp,
            IssueEvent::PriorityChanged { timestamp, .. } => *timestamp,
            IssueEvent::CreatedByChanged { timestamp, .. } => *timestamp,
        }
    }

    /// The summary line of the commit that stores the event: the variant name,
    /// then a short description of the change.
    pub fn commit_message(&self) -> (r: String)
        ensures
            r@ == commit_message_text(self@),
    {
        match self {
            IssueEvent::Created { title, .. } => String::from_str("Created: ").concat(title.as_str()),
            IssueEvent::StatusChanged { from, to, .. } => {
                let f = from.to_string();
                let t = to.to_string();
                String::from_str("StatusChanged: ").concat(f.as_str()).concat(" → ").concat(
                    t.as_str(),
                )
            },
            IssueEvent::CommentAdded { comment_id, .. } => String::from_str(
                "CommentAdded: ",
            ).concat(comment_id.as_str()),
            IssueEvent::LabelAdded { label, .. } => String::from_str("LabelAdded: ").concat(
                label.as_str(),
            ),
            IssueEvent::LabelRemoved { label, .. } => String::from_str("LabelRemoved: ").concat(
                label.as_str(),
            ),
            IssueEvent::TitleChanged { new_title, .. } => String::from_str(
                "TitleChanged: ",
            ).concat(new_title.as_str()),
            IssueEvent::AssigneeChanged { new_assignee, .. } => match new_assignee {
                Some(i) => String::from_str("AssigneeChanged: ").concat(i.name.as_str()),
                None => String::from_str("AssigneeChanged: unassigned"),
            },
            IssueEvent::AssigneesChanged { new_assignees, .. } => {
                if new_assignees.len() == 0 {
                    String::from_str("AssigneesChanged: unassigned all")
                } else if new_assignees.len() == 1 {
                    String::from_str("AssigneesChanged: ").concat(new_assignees[0].name.as_str())
                } else {
                    let n = decimal_string(new_assignees.len() as u64);
                    String::from_str("AssigneesChanged: ").concat(n.as_str()).concat(" assignees")
                }
            },
            IssueEvent::DescriptionChanged { .. } => String::from_str("DescriptionChanged"),
            IssueEvent::PriorityChanged { old_priority, new_priority, .. } => {
                let o = old_priority.to_string();
                let n = new_priority.to_string();
                String::from_str("PriorityChanged: ").concat(o.as_str()).concat(" → ").concat(
                    n.as_str(),
                )
            },
            IssueEvent::CreatedByChanged { new_created_by, .. } => String::from_str(
                "CreatedByChanged: ",
            ).concat(new_created_by.email.as_str()),
        }
    }
}

} // verus!
