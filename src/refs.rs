//! The reference namespace: where issues and the id counter live, and how the
//! issue ids are read back from reference names.
use vstd::prelude::*;
use vstd::string::*;
use crate::errors::StorageError;
use crate::issue::strings_view;
use crate::text::{canonical_u64, decimal, decimal_string, has_prefix, parse_canonical_u64, strip_prefix};

verus! {

/// The prefix of every issue reference.
pub open spec fn issue_ref_prefix() -> Seq<char> {
    "refs/git-issue/issues/"@
}

/// The prefix of every metadata reference.
pub open spec fn meta_ref_prefix() -> Seq<char> {
    "refs/git-issue/meta/"@
}

/// The reference of the issue-id counter.
pub open spec fn next_id_ref() -> Seq<char> {
    "refs/git-issue/meta/next-issue-id"@
}

/// The reference of issue `id`: the prefix, then the id in decimal.
pub open spec fn issue_ref_text(id: u64) -> Seq<char> {
    issue_ref_prefix() + decimal(id as nat)
}

/// The issue id that a reference name carries, if it is an issue reference
/// with a canonical decimal suffix.
pub open spec fn ref_issue_id(name: Seq<char>) -> Option<u64> {
    if has_prefix(name, issue_ref_prefix()) {
        canonical_u64(name.subrange(issue_ref_prefix().len() as int, name.len() as int))
    } else {
        None
    }
}

/// Whether a reference name is an issue reference whose suffix is not a canonical id.
pub open spec fn malformed_issue_ref(name: Seq<char>) -> bool {
    has_prefix(name, issue_ref_prefix()) && ref_issue_id(name) is None
}

/// Whether a sequence of ids is strictly increasing.
pub open spec fn strictly_increasing(s: Seq<u64>) -> bool {
    forall|i: int, j: int| 0 <= i < j < s.len() ==> s[i] < s[j]
}

pub fn issue_ref_prefix_str() -> (r: &'static str)
    ensures
        r@ == issue_ref_prefix(),
{
    "refs/git-issue/issues/"
}

pub fn meta_ref_prefix_str() -> (r: &'static str)
    ensures
        r@ == meta_ref_prefix(),
{
    "refs/git-issue/meta/"
}

pub fn next_id_ref_str() -> (r: &'static str)
    ensures
        r@ == next_id_ref(),
{
    "refs/git-issue/meta/next-issue-id"
}

/// The reference name of issue `issue_id`.
pub fn issue_ref_name(issue_id: u64) -> (r: String)
    ensures
        r@ == issue_ref_text(issue_id),
{
    String::from_str(issue_ref_prefix_str()).concat(decimal_string(issue_id).as_str())
}

/// The issue id that a reference name carries, if any.
pub fn issue_id_of_ref(name: &str) -> (r: Option<u64>)
    ensures
        r == ref_issue_id(name@),
{
    match strip_prefix(name, issue_ref_prefix_str()) {
        Some(suffix) => parse_canonical_u64(suffix),
        None => None,
    }
}

/// Adds `x` to a strictly increasing vector, keeping it strictly increasing.
pub fn insert_sorted(v: &mut Vec<u64>, x: u64)
    requires
        strictly_increasing(old(v)@),
    ensures
        strictly_increasing(final(v)@),
        final(v)@.to_set() == old(v)@.to_set().insert(x),
{
    let mut j: usize = 0;
    while j < v.len() && v[j] < x
        invariant
            j <= v@.len(),
            forall|k: int| 0 <= k < j ==> v@[k] < x,
        decreases v@.len() - j,
    {
        j = j + 1;
    }
    if j < v.len() && v[j] == x {
        assert(v@[j as int] == x);
        assert(v@.to_set() =~= old(v)@.to_set().insert(x));
    } else {
        let ghost before = v@;
        v.insert(j, x);
        assert forall|y: u64| #[trigger] v@.to_set().contains(y) <==> before.to_set().insert(x).contains(y) by {
            if v@.contains(y) {
                let k = choose|k: int| 0 <= k < v@.len() && v@[k] == y;
                if k < j {
                    assert(before[k] == y);
                } else if k > j {
                    assert(before[k - 1] == y);
                }
            }
            if before.contains(y) {
                let k = choose|k: int| 0 <= k < before.len() && before[k] == y;
                if k < j {
                    assert(v@[k] == y);
                } else {
                    assert(v@[k + 1] == y);
                }
            }
            if y == x {
                assert(v@[j as int] == x);
            }
        }
        assert(v@.to_set() =~= before.to_set().insert(x));
    }
}

/// The issue ids named by the issue references among `ref_names`, strictly
/// increasing. Other references are ignored; an issue reference whose suffix is
/// not a canonical decimal id is an error.
pub fn list_issue_ids(ref_names: &Vec<String>) -> (r: Result<Vec<u64>, StorageError>)
    ensures
        r is Ok <==> forall|i: int| 0 <= i < ref_names@.len() ==> !malformed_issue_ref(
            #[trigger] ref_names@[i]@,
        ),
        r is Ok ==> strictly_increasing(r->Ok_0@),
        r is Ok ==> forall|id: u64| r->Ok_0@.contains(id) <==> exists|i: int|
            0 <= i < ref_names@.len() && ref_issue_id(#[trigger] ref_names@[i]@) == Some(id),
        r is Err ==> r->Err_0 is InvalidIssueId,
{
    let mut ids: Vec<u64> = Vec::new();
    let mut i: usize = 0;
    while i < ref_names.len()
        invariant
            i <= ref_names@.len(),
            strictly_increasing(ids@),
            forall|k: int| 0 <= k < i ==> !malformed_issue_ref(#[trigger] ref_names@[k]@),
            forall|id: u64| ids@.contains(id) <==> exists|k: int|
                0 <= k < i && ref_issue_id(#[trigger] ref_names@[k]@) == Some(id),
        decreases ref_names@.len() - i,
    {
        let name = ref_names[i].as_str();
        match strip_prefix(name, issue_ref_prefix_str()) {
            Some(suffix) => match parse_canonical_u64(suffix) {
                Some(id) => {
                    let ghost before = ids@;
                    insert_sorted(&mut ids, id);
                    assert(forall|y: u64| ids@.contains(y) <==> ids@.to_set().contains(y));
                    assert(forall|y: u64| before.contains(y) <==> before.to_set().contains(y));
                    assert forall|y: u64| ids@.contains(y) <==> exists|k: int|
                        0 <= k < i + 1 && ref_issue_id(#[trigger] ref_names@[k]@) == Some(y) by {
                        if ids@.contains(y) && y != id {
                            assert(before.contains(y));
                        }
                        if y == id {
                            assert(ref_issue_id(ref_names@[i as int]@) == Some(y));
                        }
                    }
                },
                None => {
                    return Err(StorageError::invalid_issue_id(suffix));
                },
            },
            None => {
                assert forall|y: u64| ids@.contains(y) <==> exists|k: int|
                    0 <= k < i + 1 && ref_issue_id(#[trigger] ref_names@[k]@) == Some(y) by {
                    if exists|k: int| 0 <= k < i + 1 && ref_issue_id(#[trigger] ref_names@[k]@) == Some(y) {
                        let k = choose|k: int| 0 <= k < i + 1 && ref_issue_id(#[trigger] ref_names@[k]@) == Some(y);
                        assert(k != i);
                    }
                }
            },
        }
        i = i + 1;
    }
    Ok(ids)
}

/// The names, in order, of the references that start with `prefix`.
pub fn names_with_prefix(ref_names: &Vec<String>, prefix: &str) -> (r: Vec<String>)
    ensures
        strings_view(r@) == strings_view(ref_names@).filter(|n: Seq<char>| has_prefix(n, prefix@)),
{
    let ghost all = strings_view(ref_names@);
    let ghost pred = |n: Seq<char>| has_prefix(n, prefix@);
    let mut r: Vec<String> = Vec::new();
    let mut i: usize = 0;
    while i < ref_names.len()
        invariant
            i <= ref_names@.len(),
            all == strings_view(ref_names@),
            pred == (|n: Seq<char>| has_prefix(n, prefix@)),
            strings_view(r@) == all.subrange(0, i as int).filter(pred),
        decreases ref_names@.len() - i,
    {
        let ghost before = r@;
        proof {
            reveal(Seq::filter);
            assert(all.subrange(0, i + 1).drop_last() == all.subrange(0, i as int));
        }
        if strip_prefix(ref_names[i].as_str(), prefix).is_some() {
            r.push(ref_names[i].clone());
            assert(strings_view(r@) =~= strings_view(before).push(ref_names@[i as int]@));
        }
        i = i + 1;
    }
    assert(all.subrange(0, ref_names@.len() as int) == all);
    r
}

} // verus!
