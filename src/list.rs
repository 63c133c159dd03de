//! Which issues the list command shows.
use vstd::prelude::*;
use vstd::string::*;
use crate::issue::{Issue, IssueView};
use crate::status::IssueStatus;
use crate::text::{lower_of, to_lower};

verus! {

/// Whether `needle` occurs in `hay` as a contiguous run.
pub open spec fn occurs_in(hay: Seq<char>, needle: Seq<char>) -> bool {
    exists|i: int|
        0 <= i && i + needle.len() <= hay.len() && #[trigger] hay.subrange(i, i + needle.len())
            == needle
}

/// Whether an issue matches an already lower-cased search term: in its title,
/// its description or one of its labels, ignoring case.
pub open spec fn issue_matches(i: IssueView, q: Seq<char>) -> bool {
    occurs_in(lower_of(i.title), q) || occurs_in(lower_of(i.description), q) || exists|k: int|
        0 <= k < i.labels.len() && occurs_in(lower_of(#[trigger] i.labels[k]), q)
}

/// Whether the list command shows an issue: it matches the search term if one
/// is given, has the requested status if one is given, and otherwise is not
/// done unless all issues are requested.
pub open spec fn issue_shown(
    i: IssueView,
    search: Option<Seq<char>>,
    status: Option<IssueStatus>,
    all: bool,
) -> bool {
    &&& (search is Some ==> issue_matches(i, lower_of(search->Some_0)))
    &&& match status {
        Some(s) => i.status == s,
        None => all || i.status != IssueStatus::Done,
    }
}

/// Whether `needle` occurs in `hay`.
pub fn text_occurs(hay: &str, needle: &str) -> (r: bool)
    ensures
        r == occurs_in(hay@, needle@),
{
    let n = hay.unicode_len();
    let m = needle.unicode_len();
    if m > n {
        return false;
    }
    if m == 0 {
        assert(hay@.subrange(0int, 0int + needle@.len()) =~= needle@);
        return true;
    }
    let mut i: usize = 0;
    while i <= n - m
        invariant
            n == hay@.len(),
            m == needle@.len(),
            1 <= m <= n,
            forall|k: int| 0 <= k < i ==> #[trigger] hay@.subrange(k, k + m) != needle@,
        decreases n - m + 1 - i,
    {
        let mut j: usize = 0;
        let mut same = true;
        assert(hay@.subrange(i as int, i as int) =~= needle@.subrange(0, 0));
        while j < m
            invariant
                n == hay@.len(),
                m == needle@.len(),
                i + m <= n,
                j <= m,
                same == (hay@.subrange(i as int, i + j) == needle@.subrange(0, j as int)),
            decreases m - j,
        {
            if same {
                let a = hay.get_char(i + j);
                let b = needle.get_char(j);
                assert(hay@.subrange(i as int, i + j + 1) == hay@.subrange(i as int, i + j).push(
                    hay@[i + j],
                ));
                assert(needle@.subrange(0, j + 1) == needle@.subrange(0, j as int).push(needle@[j as int]));
                if a != b {
                    same = false;
                    assert(hay@.subrange(i as int, i + j + 1)[j as int] != needle@.subrange(0, j + 1)[j as int]);
                }
            } else {
                assert(hay@.subrange(i as int, i + j + 1).subrange(0, j as int) == hay@.subrange(i as int, i + j));
                assert(needle@.subrange(0, j + 1).subrange(0, j as int) == needle@.subrange(0, j as int));
            }
            j = j + 1;
        }
        assert(needle@.subrange(0, m as int) == needle@);
        if same {
            assert(hay@.subrange(i as int, i + needle@.len()) == needle@);
            return true;
        }
        i = i + 1;
    }
    false
}

/// Whether an issue matches a lower-cased search term.
pub fn matches_search(issue: &Issue, query: &str) -> (r: bool)
    ensures
        r == issue_matches(issue@, query@),
{
    if text_occurs(to_lower(issue.title.as_str()).as_str(), query) {
        return true;
    }
    if text_occurs(to_lower(issue.description.as_str()).as_str(), query) {
        return true;
    }
    let mut k: usize = 0;
    while k < issue.labels.len()
        invariant
            k <= issue.labels@.len(),
            forall|j: int| 0 <= j < k ==> !occurs_in(lower_of(#[trigger] issue@.labels[j]), query@),
        decreases issue.labels@.len() - k,
    {
        assert(issue@.labels[k as int] == issue.labels@[k as int]@);
        if text_occurs(to_lower(issue.labels[k].as_str()).as_str(), query) {
            return true;
        }
        k = k + 1;
    }
    false
}

/// The views of a sequence of issues, in order.
pub open spec fn issues_view(s: Seq<Issue>) -> Seq<IssueView> {
    s.map_values(|i: Issue| i@)
}

/// The issues that the list command shows, in the order given.
pub fn filter_issues(issues: &Vec<Issue>, search: Option<String>, status: Option<IssueStatus>, all: bool) -> (r:
    Vec<Issue>)
    ensures
        issues_view(r@) == issues_view(issues@).filter(
            |i: IssueView| issue_shown(i, crate::sync::opt_str_view(search), status, all),
        ),
{
    let query = match &search {
        Some(s) => Some(to_lower(s.as_str())),
        None => None,
    };
    let ghost sv = crate::sync::opt_str_view(search);
    let ghost pred = |i: IssueView| issue_shown(i, sv, status, all);
    let ghost all_v = issues_view(issues@);
    let mut r: Vec<Issue> = Vec::new();
    let mut i: usize = 0;
    while i < issues.len()
        invariant
            i <= issues@.len(),
            sv == crate::sync::opt_str_view(search),
            pred == (|i: IssueView| issue_shown(i, sv, status, all)),
            all_v == issues_view(issues@),
            search is Some <==> query is Some,
            query is Some ==> query->Some_0@ == lower_of(search->Some_0@),
            issues_view(r@) == all_v.subrange(0, i as int).filter(pred),
        decreases issues@.len() - i,
    {
        proof {
            reveal(Seq::filter);
            assert(all_v.subrange(0, i + 1).drop_last() == all_v.subrange(0, i as int));
        }
        let issue = &issues[i];
        let found = match &query {
            Some(q) => matches_search(issue, q.as_str()),
            None => true,
        };
        let status_ok = match status {
            Some(s) => issue.status == s,
            None => all || issue.status != IssueStatus::Done,
        };
        if found && status_ok {
            let ghost before = r@;
            r.push(issue.duplicate());
            assert(issues_view(r@) =~= issues_view(before).push(issues@[i as int]@));
        }
        i = i + 1;
    }
    assert(all_v.subrange(0, issues@.len() as int) == all_v);
    r
}

} // verus!
