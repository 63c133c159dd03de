//! Adding and removing assignees by e-mail address.
use vstd::prelude::*;
use vstd::string::*;
use crate::errors::StorageError;
use crate::identity::{Identity, IdentityView, duplicate_all, identities_view};
use crate::issue::strings_view;
use crate::labels::split_by_presence;
use crate::text::contains_char;

verus! {

/// The addresses of a list of identities, in order.
pub open spec fn emails_of(s: Seq<IdentityView>) -> Seq<Seq<char>> {
    s.map_values(|i: IdentityView| i.email)
}

/// The identities that addresses stand for when no name is known.
pub open spec fn by_email(emails: Seq<Seq<char>>) -> Seq<IdentityView> {
    emails.map_values(|e: Seq<char>| IdentityView { name: ""@, email: e })
}

/// The identities of `cur` whose address is not among `emails`, in order.
pub open spec fn keep_unlisted(cur: Seq<IdentityView>, emails: Seq<Seq<char>>) -> Seq<IdentityView>
    decreases cur.len(),
{
    if cur.len() == 0 {
        cur
    } else {
        let rest = keep_unlisted(cur.drop_last(), emails);
        if emails.contains(cur.last().email) {
            rest
        } else {
            rest.push(cur.last())
        }
    }
}

/// The addresses that the assign command works on: those given, or the
/// author's own when none is given.
pub open spec fn assign_targets(requested: Seq<Seq<char>>, author_email: Seq<char>) -> Seq<Seq<char>> {
    if requested.len() == 0 {
        seq![author_email]
    } else {
        requested
    }
}

/// What the assign command does: the new assignee list, the addresses added,
/// and those that were already assigned.
pub struct AssignPlan {
    pub new_assignees: Vec<Identity>,
    pub added: Vec<String>,
    pub already_assigned: Vec<String>,
}

/// What the unassign command does: the new assignee list, the addresses
/// removed, and those that were not assigned.
pub struct UnassignPlan {
    pub new_assignees: Vec<Identity>,
    pub removed: Vec<String>,
    pub not_assigned: Vec<String>,
}

fn emails(v: &Vec<Identity>) -> (r: Vec<String>)
    ensures
        strings_view(r@) == emails_of(identities_view(v@)),
{
    let mut r: Vec<String> = Vec::new();
    let mut i: usize = 0;
    while i < v.len()
        invariant
            i <= v@.len(),
            r@.len() == i,
            forall|k: int| 0 <= k < i ==> r@[k]@ == v@[k]@.email,
        decreases v@.len() - i,
    {
        r.push(v[i].email.clone());
        i = i + 1;
    }
    assert(strings_view(r@) =~= emails_of(identities_view(v@)));
    r
}

/// Plans the assign command. Each address must hold an `@`; addresses already
/// assigned are reported and skipped, the others are appended in order.
pub fn plan_assign(current: &Vec<Identity>, requested: &Vec<String>, author_email: &str) -> (r: Result<
    AssignPlan,
    StorageError,
>)
    ensures
        ({
            let targets = assign_targets(strings_view(requested@), author_email@);
            let cur = emails_of(identities_view(current@));
            &&& r is Ok <==> forall|i: int| 0 <= i < targets.len() ==> (#[trigger] targets[i]).contains('@')
            &&& r is Ok ==> ({
                let p = r->Ok_0;
                let added = split_by_presence(targets, cur, false);
                &&& strings_view(p.added@) == added
                &&& strings_view(p.already_assigned@) == split_by_presence(targets, cur, true)
                &&& identities_view(p.new_assignees@) == identities_view(current@) + by_email(added)
            })
            &&& r is Err ==> r->Err_0 is Validation
        }),
{
    let mut targets: Vec<String> = Vec::new();
    if requested.len() == 0 {
        targets.push(String::from_str(author_email));
        assert(strings_view(targets@) =~= seq![author_email@]);
    } else {
        let mut k: usize = 0;
        while k < requested.len()
            invariant
                k <= requested@.len(),
                targets@.len() == k,
                forall|j: int| 0 <= j < k ==> targets@[j]@ == requested@[j]@,
            decreases requested@.len() - k,
        {
            targets.push(requested[k].clone());
            k = k + 1;
        }
        assert(strings_view(targets@) =~= strings_view(requested@));
    }
    let ghost tv = strings_view(targets@);
    assert(tv == assign_targets(strings_view(requested@), author_email@));
    let cur = emails(current);
    let ghost cv = strings_view(cur@);
    let mut new_assignees = duplicate_all(current);
    let mut added: Vec<String> = Vec::new();
    let mut already: Vec<String> = Vec::new();
    let mut i: usize = 0;
    while i < targets.len()
        invariant
            i <= targets@.len(),
            tv == strings_view(targets@),
            tv == assign_targets(strings_view(requested@), author_email@),
            cv == strings_view(cur@),
            forall|j: int| 0 <= j < i ==> (#[trigger] tv[j]).contains('@'),
            strings_view(added@) == split_by_presence(tv.subrange(0, i as int), cv, false),
            strings_view(already@) == split_by_presence(tv.subrange(0, i as int), cv, true),
            identities_view(new_assignees@) == identities_view(current@) + by_email(
                strings_view(added@),
            ),
        decreases targets@.len() - i,
    {
        let email = targets[i].as_str();
        assert(tv[i as int] == email@);
        if !contains_char(email, '@') {
            assert(!tv[i as int].contains('@'));
            return Err(
                StorageError::validation(String::from_str("Invalid email format: ").concat(email)),
            );
        }
        assert(tv.subrange(0, i + 1).drop_last() == tv.subrange(0, i as int));
        assert(tv.subrange(0, i + 1).last() == email@);
        if crate::issue::contains_string(&cur, email) {
            let ghost before = already@;
            already.push(targets[i].clone());
            assert(strings_view(already@) =~= strings_view(before).push(email@));
        } else {
            let ghost before = added@;
            let ghost before_new = new_assignees@;
            proof {
                reveal_strlit("");
            }
            added.push(targets[i].clone());
            let who = Identity { name: String::new(), email: targets[i].clone() };
            assert(who.name@ =~= ""@);
            assert(who@ == IdentityView { name: ""@, email: email@ });
            new_assignees.push(who);
            assert(strings_view(added@) =~= strings_view(before).push(email@));
            assert(by_email(strings_view(added@)) =~= by_email(strings_view(before)).push(
                IdentityView { name: ""@, email: email@ },
            ));
            assert(identities_view(new_assignees@) =~= identities_view(before_new).push(
                IdentityView { name: ""@, email: email@ },
            ));
        }
        i = i + 1;
    }
    assert(tv.subrange(0, targets@.len() as int) == tv);
    Ok(AssignPlan { new_assignees, added, already_assigned: already })
}

/// Plans the unassign command. With no address every assignee is removed;
/// otherwise the listed ones that are assigned are removed and the others reported.
pub fn plan_unassign(current: &Vec<Identity>, requested: &Vec<String>) -> (r: UnassignPlan)
    ensures
        ({
            let cur = identities_view(current@);
            let req = strings_view(requested@);
            &&& req.len() == 0 ==> r.new_assignees@.len() == 0 && strings_view(r.removed@)
                == emails_of(cur) && r.not_assigned@.len() == 0
            &&& req.len() > 0 ==> identities_view(r.new_assignees@) == keep_unlisted(cur, req)
                && strings_view(r.removed@) == split_by_presence(req, emails_of(cur), true)
                && strings_view(r.not_assigned@) == split_by_presence(req, emails_of(cur), false)
        }),
{
    let cur = emails(current);
    if requested.len() == 0 {
        return UnassignPlan { new_assignees: Vec::new(), removed: cur, not_assigned: Vec::new() };
    }
    let ghost req = strings_view(requested@);
    let ghost cv = identities_view(current@);
    let mut remaining: Vec<Identity> = Vec::new();
    let mut i: usize = 0;
    while i < current.len()
        invariant
            i <= current@.len(),
            req == strings_view(requested@),
            cv == identities_view(current@),
            identities_view(remaining@) == keep_unlisted(cv.subrange(0, i as int), req),
        decreases current@.len() - i,
    {
        assert(cv.subrange(0, i + 1).drop_last() == cv.subrange(0, i as int));
        assert(cv.subrange(0, i + 1).last() == current@[i as int]@);
        if !crate::issue::contains_string(requested, current[i].email.as_str()) {
            let ghost before = remaining@;
            remaining.push(current[i].duplicate());
            assert(identities_view(remaining@) =~= identities_view(before).push(current@[i as int]@));
        }
        i = i + 1;
    }
    assert(cv.subrange(0, current@.len() as int) == cv);
    UnassignPlan {
        new_assignees: remaining,
        removed: crate::labels::select_by_presence(requested, &cur, true),
        not_assigned: crate::labels::select_by_presence(requested, &cur, false),
    }
}

} // verus!
