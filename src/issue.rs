//! The issue aggregate and the fold that rebuilds it from its events.
use vstd::prelude::*;
use vstd::string::*;
use crate::comment::{Comment, CommentView, comments_view};
use crate::errors::StorageError;
use crate::event::{EventView, IssueEvent, events_view};
use crate::identity::{Identity, IdentityView, identities_view, duplicate_all};
use crate::priority::Priority;
use crate::status::IssueStatus;
use crate::text::{decimal, decimal_string, str_eq};
use crate::timestamp::Timestamp;

verus! {

/// The value of an issue.
pub struct IssueView {
    pub id: u64,
    pub title: Seq<char>,
    pub description: Seq<char>,
    pub status: IssueStatus,
    pub priority: Priority,
    pub labels: Seq<Seq<char>>,
    pub comments: Seq<CommentView>,
    pub created_at: Timestamp,
    pub updated_at: Timestamp,
    pub created_by: IdentityView,
    pub assignees: Seq<IdentityView>,
}

/// The current state of an issue, derived from its events and never stored as such.
/// Labels keep the order in which they were added; the first assignee is the
/// primary one.
#[derive(Debug, Clone)]
pub struct Issue {
    pub id: u64,
    pub title: String,
    pub description: String,
    pub status: IssueStatus,
    pub priority: Priority,
    pub labels: Vec<String>,
    pub comments: Vec<Comment>,
    pub created_at: Timestamp,
    pub updated_at: Timestamp,
    pub created_by: Identity,
    pub assignees: Vec<Identity>,
}

/// The views of a sequence of strings, in order.
pub open spec fn strings_view(s: Seq<String>) -> Seq<Seq<char>> {
    s.map_values(|x: String| x@)
}

impl View for Issue {
    type V = IssueView;

    open spec fn view(&self) -> IssueView {
        IssueView {
            id: self.id,
            title: self.title@,
            description: self.description@,
            status: self.status,
            priority: self.priority,
            labels: strings_view(self.labels@),
            comments: comments_view(self.comments@),
            created_at: self.created_at,
            updated_at: self.updated_at,
            created_by: self.created_by@,
            assignees: identities_view(self.assignees@),
        }
    }
}

/// `labels` with `l` appended unless it is already there.
pub open spec fn with_label(labels: Seq<Seq<char>>, l: Seq<char>) -> Seq<Seq<char>> {
    if labels.contains(l) {
        labels
    } else {
        labels.push(l)
    }
}

/// `labels` with every occurrence of `l` taken out, the rest in order.
pub open spec fn without_label(labels: Seq<Seq<char>>, l: Seq<char>) -> Seq<Seq<char>>
    decreases labels.len(),
{
    if labels.len() == 0 {
        labels
    } else {
        let rest = without_label(labels.drop_last(), l);
        if labels.last() == l {
            rest
        } else {
            rest.push(labels.last())
        }
    }
}

/// The comment id `{issue_id}-{seq}`.
pub open spec fn comment_id_text(issue_id: u64, seq: nat) -> Seq<char> {
    decimal(issue_id as nat) + "-"@ + decimal(seq)
}

/// The issue that a `Created` event starts; nothing for any other event.
pub open spec fn initial_state(id: u64, e: EventView) -> Option<IssueView> {
    match e {
        EventView::Created { title, description, author, timestamp } => Some(
            IssueView {
                id,
                title,
                description,
                status: IssueStatus::Todo,
                priority: Priority::Unset,
                labels: seq![],
                comments: seq![],
                created_at: timestamp,
                updated_at: timestamp,
                created_by: author,
                assignees: seq![],
            },
        ),
        _ => None,
    }
}

/// One step of the fold: the issue after `e`, or nothing when `e` is a second `Created`.
/// Every event sets `updated_at` to its own time.
pub open spec fn apply_spec(i: IssueView, e: EventView) -> Option<IssueView> {
    match e {
        EventView::Created { .. } => None,
        EventView::StatusChanged { to, timestamp, .. } => Some(
            IssueView { status: to, updated_at: timestamp, ..i },
        ),
        EventView::CommentAdded { comment_id, content, author, timestamp } => Some(
            IssueView {
                comments: i.comments.push(
                    CommentView { id: comment_id, content, author, created_at: timestamp },
                ),
                updated_at: timestamp,
                ..i
            },
        ),
        EventView::LabelAdded { label, timestamp, .. } => Some(
            IssueView { labels: with_label(i.labels, label), updated_at: timestamp, ..i },
        ),
        EventView::LabelRemoved { label, timestamp, .. } => Some(
            IssueView { labels: without_label(i.labels, label), updated_at: timestamp, ..i },
        ),
        EventView::TitleChanged { new_title, timestamp, .. } => Some(
            IssueView { title: new_title, updated_at: timestamp, ..i },
        ),
        EventView::AssigneeChanged { new_assignee, timestamp, .. } => Some(
            IssueView {
                assignees: match new_assignee {
                    Some(a) => seq![a],
                    None => seq![],
                },
                updated_at: timestamp,
                ..i
            },
        ),
        EventView::AssigneesChanged { new_assignees, timestamp, .. } => Some(
            IssueView { assignees: new_assignees, updated_at: timestamp, ..i },
        ),
        EventView::DescriptionChanged { new_description, timestamp, .. } => Some(
            IssueView { description: new_description, updated_at: timestamp, ..i },
        ),
        EventView::PriorityChanged { new_priority, timestamp, .. } => Some(
            IssueView { priority: new_priority, updated_at: timestamp, ..i },
        ),
        EventView::CreatedByChanged { new_created_by, timestamp, .. } => Some(
            IssueView { created_by: new_created_by, updated_at: timestamp, ..i },
        ),
    }
}

/// The left fold of `apply_spec` over `es`, starting from `i`.
pub open spec fn fold_events(i: IssueView, es: Seq<EventView>) -> Option<IssueView>
    decreases es.len(),
{
    if es.len() == 0 {
        Some(i)
    } else {
        match fold_events(i, es.drop_last()) {
            Some(j) => apply_spec(j, es.last()),
            None => None,
        }
    }
}

/// The issue that a whole chain describes, oldest event first: it must start
/// with `Created` and hold no other.
pub open spec fn replay(id: u64, es: Seq<EventView>) -> Option<IssueView> {
    if es.len() == 0 {
        None
    } else {
        match initial_state(id, es[0]) {
            Some(i) => fold_events(i, es.subrange(1, es.len() as int)),
            None => None,
        }
    }
}

/// Once the fold has failed on a prefix, it fails on the whole sequence.
pub proof fn lemma_fold_failure_persists(i: IssueView, es: Seq<EventView>, k: int)
    requires
        0 <= k <= es.len(),
        fold_events(i, es.subrange(0, k)) is None,
    ensures
        fold_events(i, es) is None,
    decreases es.len() - k,
{
    if k < es.len() {
        assert(es.subrange(0, k + 1).drop_last() == es.subrange(0, k));
        lemma_fold_failure_persists(i, es, k + 1);
    } else {
        assert(es.subrange(0, k) == es);
    }
}

/// No label occurs twice.
pub open spec fn labels_distinct(labels: Seq<Seq<char>>) -> bool {
    forall|a: int, b: int| 0 <= a < b < labels.len() ==> labels[a] != labels[b]
}

proof fn lemma_without_within(labels: Seq<Seq<char>>, l: Seq<char>, x: Seq<char>)
    requires
        without_label(labels, l).contains(x),
    ensures
        labels.contains(x),
        x != l,
    decreases labels.len(),
{
    if labels.len() > 0 {
        let rest = without_label(labels.drop_last(), l);
        if rest.contains(x) {
            lemma_without_within(labels.drop_last(), l, x);
            let k = choose|k: int| 0 <= k < labels.drop_last().len() && labels.drop_last()[k] == x;
            assert(labels[k] == x);
        } else {
            assert(labels.last() != l);
            let k = choose|k: int| 0 <= k < rest.push(labels.last()).len() && rest.push(labels.last())[k] == x;
            assert(k == rest.len());
            assert(labels[labels.len() - 1] == x);
        }
    }
}

proof fn lemma_without_keeps_distinct(labels: Seq<Seq<char>>, l: Seq<char>)
    requires
        labels_distinct(labels),
    ensures
        labels_distinct(without_label(labels, l)),
    decreases labels.len(),
{
    if labels.len() > 0 {
        let init = labels.drop_last();
        assert(labels_distinct(init)) by {
            assert forall|a: int, b: int| 0 <= a < b < init.len() implies init[a] != init[b] by {
                assert(labels[a] != labels[b]);
            }
        }
        lemma_without_keeps_distinct(init, l);
        let rest = without_label(init, l);
        if labels.last() != l {
            assert(!rest.contains(labels.last())) by {
                if rest.contains(labels.last()) {
                    lemma_without_within(init, l, labels.last());
                    let k = choose|k: int| 0 <= k < init.len() && init[k] == labels.last();
                    assert(labels[k] == labels[labels.len() - 1]);
                }
            }
            let r = rest.push(labels.last());
            assert forall|a: int, b: int| 0 <= a < b < r.len() implies r[a] != r[b] by {
                if b == r.len() - 1 {
                    assert(r[a] == rest[a]);
                } else {
                    assert(r[a] == rest[a] && r[b] == rest[b]);
                }
            }
        }
    }
}

/// What the fold keeps true of every state it passes through: the id and the
/// creation time never change, labels stay distinct, `updated_at` is the time of
/// the last event applied, and no event after the first is a `Created`.
pub proof fn lemma_fold_invariants(i: IssueView, es: Seq<EventView>)
    requires
        fold_events(i, es) is Some,
    ensures
        fold_events(i, es)->Some_0.id == i.id,
        fold_events(i, es)->Some_0.created_at == i.created_at,
        labels_distinct(i.labels) ==> labels_distinct(fold_events(i, es)->Some_0.labels),
        es.len() > 0 ==> fold_events(i, es)->Some_0.updated_at == crate::event::event_time(es.last()),
        forall|k: int| 0 <= k < es.len() ==> !(#[trigger] es[k] is Created),
    decreases es.len(),
{
    if es.len() > 0 {
        let init = es.drop_last();
        lemma_fold_invariants(i, init);
        let j = fold_events(i, init)->Some_0;
        let e = es.last();
        match e {
            EventView::LabelAdded { label, .. } => {
                if labels_distinct(j.labels) && !j.labels.contains(label) {
                    let r = j.labels.push(label);
                    assert forall|a: int, b: int| 0 <= a < b < r.len() implies r[a] != r[b] by {
                        if b == r.len() - 1 {
                            assert(r[a] == j.labels[a]);
                        }
                    }
                }
            },
            EventView::LabelRemoved { label, .. } => {
                if labels_distinct(j.labels) {
                    lemma_without_keeps_distinct(j.labels, label);
                }
            },
            _ => {},
        }
        assert forall|k: int| 0 <= k < es.len() implies !(#[trigger] es[k] is Created) by {
            if k < es.len() - 1 {
                assert(es[k] == init[k]);
            }
        }
    }
}

/// An issue rebuilt from a chain satisfies the aggregate's invariants: the chain
/// starts with its one `Created` event, which gives the id's creation time;
/// labels are distinct; `updated_at` is the time of the last event.
pub proof fn lemma_replay_invariants(id: u64, es: Seq<EventView>)
    requires
        replay(id, es) is Some,
    ensures
        es.len() > 0,
        es[0] is Created,
        forall|k: int| 1 <= k < es.len() ==> !(#[trigger] es[k] is Created),
        replay(id, es)->Some_0.id == id,
        replay(id, es)->Some_0.created_at == crate::event::event_time(es[0]),
        replay(id, es)->Some_0.updated_at == crate::event::event_time(es.last()),
        labels_distinct(replay(id, es)->Some_0.labels),
{
    let init = initial_state(id, es[0])->Some_0;
    let rest = es.subrange(1, es.len() as int);
    lemma_fold_invariants(init, rest);
    assert forall|k: int| 1 <= k < es.len() implies !(#[trigger] es[k] is Created) by {
        assert(es[k] == rest[k - 1]);
    }
    if rest.len() > 0 {
        assert(rest.last() == es.last());
    } else {
        assert(es.len() == 1);
    }
}

/// Whether `l` is one of the strings of `labels`.
pub fn contains_string(labels: &Vec<String>, l: &str) -> (r: bool)
    ensures
        r == strings_view(labels@).contains(l@),
{
    let mut i: usize = 0;
    while i < labels.len()
        invariant
            i <= labels@.len(),
            forall|k: int| 0 <= k < i ==> labels@[k]@ != l@,
        decreases labels@.len() - i,
    {
        if str_eq(labels[i].as_str(), l) {
            assert(strings_view(labels@)[i as int] == l@);
            return true;
        }
        i = i + 1;
    }
    proof {
        if strings_view(labels@).contains(l@) {
            let k = choose|k: int| 0 <= k < strings_view(labels@).len() && strings_view(labels@)[k] == l@;
            assert(labels@[k]@ == l@);
        }
    }
    false
}

/// `labels` without any occurrence of `l`.
pub fn labels_without(labels: &Vec<String>, l: &str) -> (r: Vec<String>)
    ensures
        strings_view(r@) == without_label(strings_view(labels@), l@),
{
    let mut r: Vec<String> = Vec::new();
    let mut i: usize = 0;
    while i < labels.len()
        invariant
            i <= labels@.len(),
            strings_view(r@) == without_label(strings_view(labels@.subrange(0, i as int)), l@),
        decreases labels@.len() - i,
    {
        let ghost before = r@;
        assert(strings_view(labels@.subrange(0, i + 1)).drop_last() == strings_view(labels@.subrange(0, i as int)));
        assert(strings_view(labels@.subrange(0, i + 1)).last() == labels@[i as int]@);
        if !str_eq(labels[i].as_str(), l) {
            r.push(labels[i].clone());
            assert(strings_view(r@) =~= strings_view(before).push(labels@[i as int]@));
        }
        i = i + 1;
    }
    assert(labels@.subrange(0, labels@.len() as int) == labels@);
    r
}

impl Issue {
    /// A fresh issue created at `now`: status `Todo`, no priority, no labels,
    /// comments or assignees.
    pub fn new(id: u64, title: String, description: String, created_by: Identity, now: Timestamp) -> (r:
        Issue)
        ensures
            r@.id == id,
            r@.title == title@,
            r@.description == description@,
            r@.status == IssueStatus::Todo,
            r@.priority == Priority::Unset,
            r@.labels.len() == 0,
            r@.comments.len() == 0,
            r@.assignees.len() == 0,
            r@.created_by == created_by@,
            r@.created_at == now,
            r@.updated_at == now,
    {
        Issue {
            id,
            title,
            description,
            status: IssueStatus::Todo,
            priority: Priority::Unset,
            labels: Vec::new(),
            comments: Vec::new(),
            created_at: now,
            updated_at: now,
            created_by,
            assignees: Vec::new(),
        }
    }

    /// Appends a comment written at `now`, with the next id `{issue_id}-{seq}`, and
    /// returns that id.
    pub fn add_comment(&mut self, content: String, author: Identity, now: Timestamp) -> (r: String)
        requires
            old(self)@.comments.len() < u64::MAX,
        ensures
            r@ == comment_id_text(old(self)@.id, old(self)@.comments.len() + 1),
            final(self)@ == (IssueView {
                comments: final(self)@.comments,
                updated_at: now,
                ..old(self)@
            }),
            final(self)@.comments.drop_last() == old(self)@.comments,
            final(self)@.comments.len() == old(self)@.comments.len() + 1,
            final(self)@.comments.last().id == r@,
            final(self)@.comments.last().content == content@,
            final(self)@.comments.last().author == author@,
            final(self)@.comments.last().created_at == now,
    {
        let seq = self.comments.len() as u64 + 1;
        let id = decimal_string(self.id).concat("-").concat(decimal_string(seq).as_str());
        let comment = Comment::new(id.clone(), content, author, now);
        let ghost before = self.comments@;
        self.comments.push(comment);
        assert(comments_view(self.comments@) =~= comments_view(before).push(comment@));
        self.updated_at = now;
        id
    }

    /// Sets the status; a change also sets `updated_at` to `now`.
    pub fn change_status(&mut self, new_status: IssueStatus, now: Timestamp)
        ensures
            old(self)@.status == new_status ==> final(self)@ == old(self)@,
            old(self)@.status != new_status ==> final(self)@ == (IssueView {
                status: new_status,
                updated_at: now,
                ..old(self)@
            }),
    {
        if self.status != new_status {
            self.status = new_status;
            self.updated_at = now;
        }
    }

    /// Adds a label unless the issue has it; a change also sets `updated_at` to `now`.
    pub fn add_label(&mut self, label: String, now: Timestamp)
        ensures
            old(self)@.labels.contains(label@) ==> final(self)@ == old(self)@,
            !old(self)@.labels.contains(label@) ==> final(self)@ == (IssueView {
                labels: old(self)@.labels.push(label@),
                updated_at: now,
                ..old(self)@
            }),
    {
        if !contains_string(&self.labels, label.as_str()) {
            let ghost before = self.labels@;
            let ghost l = label@;
            self.labels.push(label);
            assert(strings_view(self.labels@) =~= strings_view(before).push(l));
            self.updated_at = now;
        }
    }

    /// Removes a label if the issue has it; a change also sets `updated_at` to `now`.
    pub fn remove_label(&mut self, label: &str, now: Timestamp)
        ensures
            !old(self)@.labels.contains(label@) ==> final(self)@ == old(self)@,
            old(self)@.labels.contains(label@) ==> final(self)@ == (IssueView {
                labels: without_label(old(self)@.labels, label@),
                updated_at: now,
                ..old(self)@
            }),
    {
        if contains_string(&self.labels, label) {
            self.labels = labels_without(&self.labels, label);
            self.updated_at = now;
        }
    }

    /// Sets the title; a change also sets `updated_at` to `now`.
    pub fn change_title(&mut self, new_title: String, now: Timestamp)
        ensures
            old(self)@.title == new_title@ ==> final(self)@ == old(self)@,
            old(self)@.title != new_title@ ==> final(self)@ == (IssueView {
                title: new_title@,
                updated_at: now,
                ..old(self)@
            }),
    {
        if self.title != new_title {
            self.title = new_title;
            self.updated_at = now;
        }
    }

    /// Makes `assignee` the only assignee, or clears the assignees; a change
    /// also sets `updated_at` to `now`.
    pub fn assign_to(&mut self, assignee: Option<Identity>, now: Timestamp)
        ensures
            ({
                let target = match assignee {
                    Some(a) => seq![a@],
                    None => Seq::<IdentityView>::empty(),
                };
                &&& old(self)@.assignees == target ==> final(self)@ == old(self)@
                &&& old(self)@.assignees != target ==> final(self)@ == (IssueView {
                    assignees: target,
                    updated_at: now,
                    ..old(self)@
                })
            }),
    {
        let mut target: Vec<Identity> = Vec::new();
        match assignee {
            Some(a) => {
                target.push(a);
            },
            None => {},
        }
        assert(identities_view(target@) =~= match assignee {
            Some(a) => seq![a@],
            None => Seq::<IdentityView>::empty(),
        });
        if !crate::identity::same_all(&self.assignees, &target) {
            self.assignees = target;
            self.updated_at = now;
        }
    }

    /// Sets the description; a change also sets `updated_at` to `now`.
    pub fn change_description(&mut self, new_description: String, now: Timestamp)
        ensures
            old(self)@.description == new_description@ ==> final(self)@ == old(self)@,
            old(self)@.description != new_description@ ==> final(self)@ == (IssueView {
                description: new_description@,
                updated_at: now,
                ..old(self)@
            }),
    {
        if self.description != new_description {
            self.description = new_description;
            self.updated_at = now;
        }
    }

    /// Sets the priority; a change also sets `updated_at` to `now`.
    pub fn change_priority(&mut self, new_priority: Priority, now: Timestamp)
        ensures
            old(self)@.priority == new_priority ==> final(self)@ == old(self)@,
            old(self)@.priority != new_priority ==> final(self)@ == (IssueView {
                priority: new_priority,
                updated_at: now,
                ..old(self)@
            }),
    {
        if self.priority != new_priority {
            self.priority = new_priority;
            self.updated_at = now;
        }
    }

    /// The primary assignee: the first one, if any.
    pub fn assignee(&self) -> (r: Option<Identity>)
        ensures
            self@.assignees.len() == 0 ==> r is None,
            self@.assignees.len() > 0 ==> r is Some && r->Some_0@ == self@.assignees[0],
    {
        if self.assignees.len() == 0 {
            None
        } else {
            Some(self.assignees[0].duplicate())
        }
    }

    /// A copy with the same value.
    pub fn duplicate(&self) -> (r: Issue)
        ensures
            r@ == self@,
    {
        let mut comments: Vec<Comment> = Vec::new();
        let mut i: usize = 0;
        while i < self.comments.len()
            invariant
                i <= self.comments@.len(),
                comments@.len() == i,
                forall|k: int| 0 <= k < i ==> comments@[k]@ == self.comments@[k]@,
            decreases self.comments@.len() - i,
        {
            comments.push(self.comments[i].duplicate());
            i = i + 1;
        }
        let mut labels: Vec<String> = Vec::new();
        let mut j: usize = 0;
        while j < self.labels.len()
            invariant
                j <= self.labels@.len(),
                labels@.len() == j,
                forall|k: int| 0 <= k < j ==> labels@[k]@ == self.labels@[k]@,
            decreases self.labels@.len() - j,
        {
            labels.push(self.labels[j].clone());
            j = j + 1;
        }
        let r = Issue {
            id: self.id,
            title: self.title.clone(),
            description: self.description.clone(),
            status: self.status,
            priority: self.priority,
            labels,
            comments,
            created_at: self.created_at,
            updated_at: self.updated_at,
            created_by: self.created_by.duplicate(),
            assignees: duplicate_all(&self.assignees),
        };
        assert(r@.comments =~= self@.comments);
        assert(r@.labels =~= self@.labels);
        r
    }

    /// Applies one event after the first. A `Created` event is refused and
    /// leaves the issue as it was.
    pub fn apply_event(&mut self, event: &IssueEvent) -> (r: Result<(), StorageError>)
        ensures
            r is Ok <==> apply_spec(old(self)@, event@) is Some,
            r is Ok ==> final(self)@ == apply_spec(old(self)@, event@)->Some_0,
            r is Err ==> r->Err_0 is InvalidEventSequence && final(self)@ == old(self)@,
    {
        match event {
            IssueEvent::Created { .. } => {
                return Err(
                    StorageError::invalid_event_sequence(
                        "Cannot apply Created event to existing issue",
                    ),
                );
            },
            IssueEvent::StatusChanged { to, timestamp, .. } => {
                self.status = *to;
                self.updated_at = *timestamp;
            },
            IssueEvent::CommentAdded { comment_id, content, author, timestamp } => {
                let comment = Comment {
                    id: comment_id.clone(),
                    content: content.clone(),
                    author: author.duplicate(),
                    created_at: *timestamp,
                };
                let ghost before = self.comments@;
                self.comments.push(comment);
                assert(comments_view(self.comments@) =~= comments_view(before).push(comment@));
                self.updated_at = *timestamp;
            },
            IssueEvent::LabelAdded { label, timestamp, .. } => {
                if !contains_string(&self.labels, label.as_str()) {
                    let ghost before = self.labels@;
                    self.labels.push(label.clone());
                    assert(strings_view(self.labels@) =~= strings_view(before).push(label@));
                }
                self.updated_at = *timestamp;
            },
            IssueEvent::LabelRemoved { label, timestamp, .. } => {
                self.labels = labels_without(&self.labels, label.as_str());
                self.updated_at = *timestamp;
            },
            IssueEvent::TitleChanged { new_title, timestamp, .. } => {
                self.title = new_title.clone();
                self.updated_at = *timestamp;
            },
            IssueEvent::AssigneeChanged { new_assignee, timestamp, .. } => {
                let mut v: Vec<Identity> = Vec::new();
                match new_assignee {
                    Some(a) => {
                        v.push(a.duplicate());
                        assert(identities_view(v@) =~= seq![a@]);
                    },
                    None => {
                        assert(identities_view(v@) =~= Seq::<IdentityView>::empty());
                    },
                }
                self.assignees = v;
                self.updated_at = *timestamp;
            },
            IssueEvent::AssigneesChanged { new_assignees, timestamp, .. } => {
                self.assignees = duplicate_all(new_assignees);
                self.updated_at = *timestamp;
            },
            IssueEvent::DescriptionChanged { new_description, timestamp, .. } => {
                self.description = new_description.clone();
                self.updated_at = *timestamp;
            },
            IssueEvent::PriorityChanged { new_priority, timestamp, .. } => {
                self.priority = *new_priority;
                self.updated_at = *timestamp;
            },
            IssueEvent::CreatedByChanged { new_created_by, timestamp, .. } => {
                self.created_by = new_created_by.duplicate();
                self.updated_at = *timestamp;
            },
        }
        Ok(())
    }

    /// Rebuilds an issue from its chain, oldest event first: the first event
    /// must be `Created`, and every later one is applied in turn.
    pub fn from_events(issue_id: u64, events: &[IssueEvent]) -> (r: Result<Issue, StorageError>)
        ensures
            r is Ok <==> replay(issue_id, events_view(events@)) is Some,
            r is Ok ==> r->Ok_0@ == replay(issue_id, events_view(events@))->Some_0,
            r is Err ==> r->Err_0 is InvalidEventSequence,
    {
        let ghost es = events_view(events@);
        if events.len() == 0 {
            return Err(
                StorageError::invalid_event_sequence("Cannot create issue from empty event list"),
            );
        }
        let mut issue = match &events[0] {
            IssueEvent::Created { title, description, author, timestamp } => Issue {
                id: issue_id,
                title: title.clone(),
                description: description.clone(),
                status: IssueStatus::Todo,
                priority: Priority::Unset,
                labels: Vec::new(),
                comments: Vec::new(),
                created_at: *timestamp,
                updated_at: *timestamp,
                created_by: author.duplicate(),
                assignees: Vec::new(),
            },
            _ => {
                return Err(StorageError::invalid_event_sequence("First event must be Created"));
            },
        };
        let ghost init = initial_state(issue_id, es[0])->Some_0;
        let ghost rest = es.subrange(1, es.len() as int);
        assert(issue@.labels =~= init.labels);
        assert(issue@.comments =~= init.comments);
        assert(issue@.assignees =~= init.assignees);
        assert(rest.subrange(0, 0).len() == 0);
        let mut i: usize = 1;
        while i < events.len()
            invariant
                1 <= i <= events@.len(),
                es == events_view(events@),
                rest == es.subrange(1, es.len() as int),
                init == initial_state(issue_id, es[0])->Some_0,
                fold_events(init, rest.subrange(0, i - 1)) == Some(issue@),
            decreases events@.len() - i,
        {
            assert(rest.subrange(0, i as int).drop_last() == rest.subrange(0, i - 1));
            assert(rest.subrange(0, i as int).last() == events@[i as int]@);
            match issue.apply_event(&events[i]) {
                Ok(()) => {},
                Err(e) => {
                    proof {
                        lemma_fold_failure_persists(init, rest, i as int);
                    }
                    return Err(e);
                },
            }
            i = i + 1;
        }
        assert(rest.subrange(0, rest.len() as int) == rest);
        Ok(issue)
    }
}

} // verus!
