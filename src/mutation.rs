//! The decisions behind every mutation of an issue: which event, if any, a
//! requested change produces. A request that changes nothing produces no event.
use vstd::prelude::*;
use vstd::string::*;
use crate::errors::StorageError;
use crate::event::{EventView, IssueEvent};
use crate::identity::{
    Identity,
    IdentityView,
    duplicate_all,
    duplicate_opt,
    identities_view,
    opt_identity_view,
    same_all,
};
use crate::issue::{
    Issue,
    IssueView,
    apply_spec,
    comment_id_text,
    contains_string,
    fold_events,
    replay,
    without_label,
};
use crate::priority::Priority;
use crate::status::IssueStatus;
use crate::text::{contains_char, decimal_string, trim, trim_of};
use crate::timestamp::Timestamp;

verus! {

/// The view of an optional event.
pub open spec fn opt_event_view(o: Option<IssueEvent>) -> Option<EventView> {
    match o {
        Some(e) => Some(e@),
        None => None,
    }
}

/// Two states that differ at most in `updated_at`.
pub open spec fn same_content(a: IssueView, b: IssueView) -> bool {
    a == IssueView { updated_at: a.updated_at, ..b }
}

/// The primary assignee of a state.
pub open spec fn primary_assignee(i: IssueView) -> Option<IdentityView> {
    if i.assignees.len() > 0 {
        Some(i.assignees[0])
    } else {
        None
    }
}

pub open spec fn status_plan(i: IssueView, s: IssueStatus, a: IdentityView, ts: Timestamp) -> Option<
    EventView,
> {
    if i.status == s {
        None
    } else {
        Some(EventView::StatusChanged { from: i.status, to: s, author: a, timestamp: ts })
    }
}

pub open spec fn title_plan(i: IssueView, t: Seq<char>, a: IdentityView, ts: Timestamp) -> Option<
    EventView,
> {
    if i.title == t {
        None
    } else {
        Some(EventView::TitleChanged { old_title: i.title, new_title: t, author: a, timestamp: ts })
    }
}

pub open spec fn description_plan(
    i: IssueView,
    d: Seq<char>,
    a: IdentityView,
    ts: Timestamp,
) -> Option<EventView> {
    if i.description == d {
        None
    } else {
        Some(
            EventView::DescriptionChanged {
                old_description: i.description,
                new_description: d,
                author: a,
                timestamp: ts,
            },
        )
    }
}

pub open spec fn priority_plan(i: IssueView, p: Priority, a: IdentityView, ts: Timestamp) -> Option<
    EventView,
> {
    if i.priority == p {
        None
    } else {
        Some(
            EventView::PriorityChanged {
                old_priority: i.priority,
                new_priority: p,
                author: a,
                timestamp: ts,
            },
        )
    }
}

pub open spec fn created_by_plan(
    i: IssueView,
    c: IdentityView,
    a: IdentityView,
    ts: Timestamp,
) -> Option<EventView> {
    if i.created_by == c {
        None
    } else {
        Some(
            EventView::CreatedByChanged {
                old_created_by: i.created_by,
                new_created_by: c,
                author: a,
                timestamp: ts,
            },
        )
    }
}

/// The assignee list that a single-assignee request leaves: that one, or none.
pub open spec fn single_assignee(n: Option<IdentityView>) -> Seq<IdentityView> {
    match n {
        Some(a) => seq![a],
        None => seq![],
    }
}

/// A single-assignee request is a no-op only when the list is already exactly
/// that one assignee (or empty for `None`).
pub open spec fn assignee_plan(
    i: IssueView,
    n: Option<IdentityView>,
    a: IdentityView,
    ts: Timestamp,
) -> Option<EventView> {
    if i.assignees == single_assignee(n) {
        None
    } else {
        Some(
            EventView::AssigneeChanged {
                old_assignee: primary_assignee(i),
                new_assignee: n,
                author: a,
                timestamp: ts,
            },
        )
    }
}

pub open spec fn assignees_plan(
    i: IssueView,
    n: Seq<IdentityView>,
    a: IdentityView,
    ts: Timestamp,
) -> Option<EventView> {
    if i.assignees == n {
        None
    } else {
        Some(
            EventView::AssigneesChanged {
                old_assignees: i.assignees,
                new_assignees: n,
                author: a,
                timestamp: ts,
            },
        )
    }
}

/// Adding a label (already trimmed) that the issue has is a no-op.
pub open spec fn label_add_plan(i: IssueView, l: Seq<char>, a: IdentityView, ts: Timestamp) -> Option<
    EventView,
> {
    if i.labels.contains(l) {
        None
    } else {
        Some(EventView::LabelAdded { label: l, author: a, timestamp: ts })
    }
}

/// Removing a label (already trimmed) that the issue does not have is a no-op.
pub open spec fn label_remove_plan(
    i: IssueView,
    l: Seq<char>,
    a: IdentityView,
    ts: Timestamp,
) -> Option<EventView> {
    if i.labels.contains(l) {
        Some(EventView::LabelRemoved { label: l, author: a, timestamp: ts })
    } else {
        None
    }
}

/// A comment always makes an event; it takes the next id in the issue.
pub open spec fn comment_plan(i: IssueView, content: Seq<char>, a: IdentityView, ts: Timestamp) -> EventView {
    EventView::CommentAdded {
        comment_id: comment_id_text(i.id, i.comments.len() + 1),
        content,
        author: a,
        timestamp: ts,
    }
}

/// Whether a label argument is acceptable: once trimmed it is non-empty and
/// holds no space.
pub open spec fn label_argument_ok(l: Seq<char>) -> bool {
    trim_of(l).len() > 0 && !trim_of(l).contains(' ')
}

/// The status change to append, if the status differs.
pub fn plan_status_change(
    current: &Issue,
    new_status: IssueStatus,
    author: &Identity,
    timestamp: Timestamp,
) -> (r: Option<IssueEvent>)
    ensures
        opt_event_view(r) == status_plan(current@, new_status, author@, timestamp),
{
    if current.status == new_status {
        None
    } else {
        Some(
            IssueEvent::StatusChanged {
                from: current.status,
                to: new_status,
                author: author.duplicate(),
                timestamp,
            },
        )
    }
}

/// The title change to append, if the title differs.
pub fn plan_title_change(
    current: &Issue,
    new_title: &String,
    author: &Identity,
    timestamp: Timestamp,
) -> (r: Option<IssueEvent>)
    ensures
        opt_event_view(r) == title_plan(current@, new_title@, author@, timestamp),
{
    if current.title == *new_title {
        None
    } else {
        Some(
            IssueEvent::TitleChanged {
                old_title: current.title.clone(),
                new_title: new_title.clone(),
                author: author.duplicate(),
                timestamp,
            },
        )
    }
}

/// The description change to append, if the description differs.
pub fn plan_description_change(
    current: &Issue,
    new_description: &String,
    author: &Identity,
    timestamp: Timestamp,
) -> (r: Option<IssueEvent>)
    ensures
        opt_event_view(r) == description_plan(current@, new_description@, author@, timestamp),
{
    if current.description == *new_description {
        None
    } else {
        Some(
            IssueEvent::DescriptionChanged {
                old_description: current.description.clone(),
                new_description: new_description.clone(),
                author: author.duplicate(),
                timestamp,
            },
        )
    }
}

/// The priority change to append, if the priority differs.
pub fn plan_priority_change(
    current: &Issue,
    new_priority: Priority,
    author: &Identity,
    timestamp: Timestamp,
) -> (r: Option<IssueEvent>)
    ensures
        opt_event_view(r) == priority_plan(current@, new_priority, author@, timestamp),
{
    if current.priority == new_priority {
        None
    } else {
        Some(
            IssueEvent::PriorityChanged {
                old_priority: current.priority,
                new_priority,
                author: author.duplicate(),
                timestamp,
            },
        )
    }
}

/// The creator change to append, if the creator differs.
pub fn plan_created_by_change(
    current: &Issue,
    new_created_by: &Identity,
    author: &Identity,
    timestamp: Timestamp,
) -> (r: Option<IssueEvent>)
    ensures
        opt_event_view(r) == created_by_plan(current@, new_created_by@, author@, timestamp),
{
    if current.created_by.same_as(new_created_by) {
        None
    } else {
        Some(
            IssueEvent::CreatedByChanged {
                old_created_by: current.created_by.duplicate(),
                new_created_by: new_created_by.duplicate(),
                author: author.duplicate(),
                timestamp,
            },
        )
    }
}

/// The single-assignee change to append, unless the assignee list is already
/// exactly what the request leaves.
pub fn plan_assignee_change(
    current: &Issue,
    new_assignee: &Option<Identity>,
    author: &Identity,
    timestamp: Timestamp,
) -> (r: Option<IssueEvent>)
    ensures
        opt_event_view(r) == assignee_plan(
            current@,
            opt_identity_view(*new_assignee),
            author@,
            timestamp,
        ),
{
    let primary = current.assignee();
    let mut target: Vec<Identity> = Vec::new();
    match new_assignee {
        Some(a) => target.push(a.duplicate()),
        None => {},
    }
    assert(identities_view(target@) =~= single_assignee(opt_identity_view(*new_assignee)));
    if same_all(&current.assignees, &target) {
        None
    } else {
        Some(
            IssueEvent::AssigneeChanged {
                old_assignee: primary,
                new_assignee: duplicate_opt(new_assignee),
                author: author.duplicate(),
                timestamp,
            },
        )
    }
}

/// The assignee-list change to append, if the list differs.
pub fn plan_assignees_change(
    current: &Issue,
    new_assignees: &Vec<Identity>,
    author: &Identity,
    timestamp: Timestamp,
) -> (r: Option<IssueEvent>)
    ensures
        opt_event_view(r) == assignees_plan(
            current@,
            identities_view(new_assignees@),
            author@,
            timestamp,
        ),
{
    if same_all(&current.assignees, new_assignees) {
        None
    } else {
        Some(
            IssueEvent::AssigneesChanged {
                old_assignees: duplicate_all(&current.assignees),
                new_assignees: duplicate_all(new_assignees),
                author: author.duplicate(),
                timestamp,
            },
        )
    }
}

/// The comment to append; its id continues the issue's sequence.
pub fn plan_comment(current: &Issue, content: &String, author: &Identity, timestamp: Timestamp) -> (r:
    IssueEvent)
    requires
        current@.comments.len() < u64::MAX,
    ensures
        r@ == comment_plan(current@, content@, author@, timestamp),
{
    let seq = current.comments.len() as u64 + 1;
    let id = decimal_string(current.id).concat("-").concat(decimal_string(seq).as_str());
    IssueEvent::CommentAdded {
        comment_id: id,
        content: content.clone(),
        author: author.duplicate(),
        timestamp,
    }
}

/// Checks a trimmed label: non-empty, no space inside.
fn check_label(t: &String) -> (r: Result<(), StorageError>)
    ensures
        r is Ok <==> t@.len() > 0 && !t@.contains(' '),
        r is Err ==> r->Err_0 is Validation,
{
    if t.as_str().unicode_len() == 0 {
        return Err(StorageError::validation(String::from_str("Label cannot be empty")));
    }
    if contains_char(t.as_str(), ' ') {
        return Err(
            StorageError::validation(
                String::from_str("Label '").concat(t.as_str()).concat("' contains spaces"),
            ),
        );
    }
    Ok(())
}

/// Trims a label argument and checks it: non-empty, no space inside.
pub fn label_argument(label: &str) -> (r: Result<String, StorageError>)
    ensures
        r is Ok <==> label_argument_ok(label@),
        r is Ok ==> r->Ok_0@ == trim_of(label@),
        r is Err ==> r->Err_0 is Validation,
{
    let t = trim(label);
    check_label(&t)?;
    Ok(t)
}

/// The label addition to append. The label is trimmed; one the issue already
/// has makes no event, and only then is a new label checked.
pub fn plan_add_label(current: &Issue, label: &str, author: &Identity, timestamp: Timestamp) -> (r:
    Result<Option<IssueEvent>, StorageError>)
    ensures
        r is Ok <==> current@.labels.contains(trim_of(label@)) || label_argument_ok(label@),
        r is Ok ==> opt_event_view(r->Ok_0) == label_add_plan(
            current@,
            trim_of(label@),
            author@,
            timestamp,
        ),
        r is Err ==> r->Err_0 is Validation,
{
    let l = trim(label);
    if contains_string(&current.labels, l.as_str()) {
        return Ok(None);
    }
    check_label(&l)?;
    Ok(Some(IssueEvent::LabelAdded { label: l, author: author.duplicate(), timestamp }))
}

/// The label removal to append. The label is trimmed; one the issue does not
/// have makes no event, and only then is the label checked.
pub fn plan_remove_label(current: &Issue, label: &str, author: &Identity, timestamp: Timestamp) -> (r:
    Result<Option<IssueEvent>, StorageError>)
    ensures
        r is Ok <==> !current@.labels.contains(trim_of(label@)) || label_argument_ok(label@),
        r is Ok ==> opt_event_view(r->Ok_0) == label_remove_plan(
            current@,
            trim_of(label@),
            author@,
            timestamp,
        ),
        r is Err ==> r->Err_0 is Validation,
{
    let l = trim(label);
    if !contains_string(&current.labels, l.as_str()) {
        return Ok(None);
    }
    check_label(&l)?;
    Ok(Some(IssueEvent::LabelRemoved { label: l, author: author.duplicate(), timestamp }))
}

proof fn lemma_without_absent(labels: Seq<Seq<char>>, l: Seq<char>)
    requires
        !labels.contains(l),
    ensures
        without_label(labels, l) == labels,
    decreases labels.len(),
{
    if labels.len() > 0 {
        assert(!labels.drop_last().contains(l)) by {
            if labels.drop_last().contains(l) {
                let k = choose|k: int| 0 <= k < labels.drop_last().len() && labels.drop_last()[k] == l;
                assert(labels[k] == l);
            }
        }
        lemma_without_absent(labels.drop_last(), l);
        assert(labels.drop_last().push(labels.last()) == labels);
    }
}

proof fn lemma_without_removes(labels: Seq<Seq<char>>, l: Seq<char>)
    ensures
        !without_label(labels, l).contains(l),
    decreases labels.len(),
{
    if labels.len() > 0 {
        lemma_without_removes(labels.drop_last(), l);
        let rest = without_label(labels.drop_last(), l);
        if labels.last() != l {
            assert forall|k: int| 0 <= k < rest.push(labels.last()).len() implies rest.push(
                labels.last(),
            )[k] != l by {
                if k < rest.len() {
                    assert(rest.push(labels.last())[k] == rest[k]);
                }
            }
        }
    }
}

proof fn lemma_without_shrinks(labels: Seq<Seq<char>>, l: Seq<char>)
    requires
        labels.contains(l),
    ensures
        without_label(labels, l) != labels,
{
    lemma_without_removes(labels, l);
}

/// A request that would leave the issue as it is produces no event, and one
/// that produces an event changes the issue; `updated_at` aside.
pub proof fn lemma_no_event_iff_no_change(
    i: IssueView,
    a: IdentityView,
    ts: Timestamp,
    s: IssueStatus,
    t: Seq<char>,
    d: Seq<char>,
    p: Priority,
    c: IdentityView,
    n: Option<IdentityView>,
    ns: Seq<IdentityView>,
    l: Seq<char>,
)
    ensures
        status_plan(i, s, a, ts) is None <==> same_content(
            apply_spec(
                i,
                EventView::StatusChanged { from: i.status, to: s, author: a, timestamp: ts },
            )->Some_0,
            i,
        ),
        title_plan(i, t, a, ts) is None <==> same_content(
            apply_spec(
                i,
                EventView::TitleChanged { old_title: i.title, new_title: t, author: a, timestamp: ts },
            )->Some_0,
            i,
        ),
        description_plan(i, d, a, ts) is None <==> same_content(
            apply_spec(
                i,
                EventView::DescriptionChanged {
                    old_description: i.description,
                    new_description: d,
                    author: a,
                    timestamp: ts,
                },
            )->Some_0,
            i,
        ),
        priority_plan(i, p, a, ts) is None <==> same_content(
            apply_spec(
                i,
                EventView::PriorityChanged {
                    old_priority: i.priority,
                    new_priority: p,
                    author: a,
                    timestamp: ts,
                },
            )->Some_0,
            i,
        ),
        created_by_plan(i, c, a, ts) is None <==> same_content(
            apply_spec(
                i,
                EventView::CreatedByChanged {
                    old_created_by: i.created_by,
                    new_created_by: c,
                    author: a,
                    timestamp: ts,
                },
            )->Some_0,
            i,
        ),
        assignees_plan(i, ns, a, ts) is None <==> same_content(
            apply_spec(
                i,
                EventView::AssigneesChanged {
                    old_assignees: i.assignees,
                    new_assignees: ns,
                    author: a,
                    timestamp: ts,
                },
            )->Some_0,
            i,
        ),
        assignee_plan(i, n, a, ts) is None <==> same_content(
            apply_spec(
                i,
                EventView::AssigneeChanged {
                    old_assignee: primary_assignee(i),
                    new_assignee: n,
                    author: a,
                    timestamp: ts,
                },
            )->Some_0,
            i,
        ),
        label_add_plan(i, l, a, ts) is None <==> same_content(
            apply_spec(i, EventView::LabelAdded { label: l, author: a, timestamp: ts })->Some_0,
            i,
        ),
        label_remove_plan(i, l, a, ts) is None <==> same_content(
            apply_spec(i, EventView::LabelRemoved { label: l, author: a, timestamp: ts })->Some_0,
            i,
        ),
{
    if !i.labels.contains(l) {
        lemma_without_absent(i.labels, l);
    } else {
        lemma_without_shrinks(i.labels, l);
    }
    assert(!i.labels.contains(l) ==> i.labels.push(l) != i.labels) by {
        if !i.labels.contains(l) {
            assert(i.labels.push(l).len() != i.labels.len());
        }
    }
}

/// Asking twice for the same status appends one event when the status differs
/// and none when it is already set.
pub proof fn lemma_status_twice_one_event(
    i: IssueView,
    s: IssueStatus,
    a: IdentityView,
    ts1: Timestamp,
    ts2: Timestamp,
)
    ensures
        status_plan(i, s, a, ts1) is Some <==> i.status != s,
        status_plan(i, s, a, ts1) is None ==> status_plan(i, s, a, ts2) is None,
        status_plan(i, s, a, ts1) is Some ==> ({
            let j = apply_spec(i, status_plan(i, s, a, ts1)->Some_0);
            j is Some && status_plan(j->Some_0, s, a, ts2) is None
        }),
{
}

/// Adding a label twice leaves the issue as adding it once: the second request
/// makes no event.
pub proof fn lemma_add_label_twice(
    i: IssueView,
    l: Seq<char>,
    a: IdentityView,
    ts1: Timestamp,
    ts2: Timestamp,
)
    ensures
        label_add_plan(i, l, a, ts1) is None ==> label_add_plan(i, l, a, ts2) is None,
        label_add_plan(i, l, a, ts1) is Some ==> ({
            let j = apply_spec(i, label_add_plan(i, l, a, ts1)->Some_0);
            j is Some && j->Some_0.labels.contains(l) && label_add_plan(j->Some_0, l, a, ts2) is None
        }),
{
    if !i.labels.contains(l) {
        assert(i.labels.push(l)[i.labels.len() as int] == l);
    }
}

/// Removing a label twice leaves the issue as removing it once: the second
/// request makes no event.
pub proof fn lemma_remove_label_twice(
    i: IssueView,
    l: Seq<char>,
    a: IdentityView,
    ts1: Timestamp,
    ts2: Timestamp,
)
    ensures
        label_remove_plan(i, l, a, ts1) is None ==> label_remove_plan(i, l, a, ts2) is None,
        label_remove_plan(i, l, a, ts1) is Some ==> ({
            let j = apply_spec(i, label_remove_plan(i, l, a, ts1)->Some_0);
            j is Some && !j->Some_0.labels.contains(l) && label_remove_plan(j->Some_0, l, a, ts2)
                is None
        }),
{
    lemma_without_removes(i.labels, l);
}

/// A successful mutation appends exactly one event to the chain, and replaying
/// the longer chain gives the state after that event. From a chain of one
/// `Created` event, `N` such mutations therefore leave `N + 1` events.
pub proof fn lemma_append_extends_replay(id: u64, es: Seq<EventView>, e: EventView)
    requires
        replay(id, es) is Some,
        apply_spec(replay(id, es)->Some_0, e) is Some,
    ensures
        es.push(e).len() == es.len() + 1,
        replay(id, es.push(e)) == apply_spec(replay(id, es)->Some_0, e),
{
    let longer = es.push(e);
    assert(longer[0] == es[0]);
    assert(longer.subrange(1, longer.len() as int).drop_last() == es.subrange(1, es.len() as int));
    assert(longer.subrange(1, longer.len() as int).last() == e);
}

/// Comment ids are `{issue_id}-1`, `{issue_id}-2`, … in order.
pub open spec fn comment_ids_dense(i: IssueView) -> bool {
    forall|k: int|
        0 <= k < i.comments.len() ==> (#[trigger] i.comments[k]).id == comment_id_text(
            i.id,
            (k + 1) as nat,
        )
}

/// A comment added through `plan_comment` keeps the comment ids dense.
pub proof fn lemma_comment_keeps_ids_dense(
    i: IssueView,
    content: Seq<char>,
    a: IdentityView,
    ts: Timestamp,
)
    requires
        comment_ids_dense(i),
    ensures
        apply_spec(i, comment_plan(i, content, a, ts)) is Some,
        comment_ids_dense(apply_spec(i, comment_plan(i, content, a, ts))->Some_0),
{
    let j = apply_spec(i, comment_plan(i, content, a, ts))->Some_0;
    assert forall|k: int| 0 <= k < j.comments.len() implies (#[trigger] j.comments[k]).id
        == comment_id_text(j.id, (k + 1) as nat) by {
        if k < i.comments.len() {
            assert(j.comments[k] == i.comments[k]);
        }
    }
}

/// Every successful mutation appends exactly one event (each `plan_*` gives at
/// most one). After the events `ms` of such mutations, a chain has grown by
/// `ms.len()` and replays to the state those events fold to; so `N` mutations
/// of a fresh issue (one `Created` event) leave `N + 1` events.
pub proof fn lemma_mutations_extend_chain(id: u64, es: Seq<EventView>, ms: Seq<EventView>)
    requires
        replay(id, es) is Some,
        fold_events(replay(id, es)->Some_0, ms) is Some,
    ensures
        (es + ms).len() == es.len() + ms.len(),
        replay(id, es + ms) == fold_events(replay(id, es)->Some_0, ms),
    decreases ms.len(),
{
    if ms.len() > 0 {
        let init = ms.drop_last();
        lemma_mutations_extend_chain(id, es, init);
        assert(es + ms == (es + init).push(ms.last()));
        lemma_append_extends_replay(id, es + init, ms.last());
    } else {
        assert(es + ms == es);
    }
}

} // verus!
