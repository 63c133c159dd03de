//! The label grammar and the `+label` / `-label` operations of the label command.
use vstd::prelude::*;
use vstd::string::*;
use crate::errors::StorageError;
use crate::issue::{contains_string, strings_view};
use crate::text::{contains_char, str_eq, trim, trim_of};

verus! {

/// A well-formed label name: non-empty, no surrounding white space, no space inside.
pub open spec fn label_name_ok(l: Seq<char>) -> bool {
    trim_of(l) == l && !l.contains(' ') && l.len() > 0
}

/// What one argument of the label command asks for.
pub enum LabelOp {
    Add(Seq<char>),
    Remove(Seq<char>),
    Skip,
    Bad,
}

/// Reads one argument: empty is skipped, `+name` adds, `-name` removes, with a
/// well-formed name; anything else is refused.
pub open spec fn label_op(arg: Seq<char>) -> LabelOp {
    if arg.len() == 0 {
        LabelOp::Skip
    } else if arg[0] == '+' || arg[0] == '-' {
        let name = arg.subrange(1, arg.len() as int);
        if !label_name_ok(name) {
            LabelOp::Bad
        } else if arg[0] == '+' {
            LabelOp::Add(name)
        } else {
            LabelOp::Remove(name)
        }
    } else {
        LabelOp::Bad
    }
}

/// The names to add and to remove, in argument order; nothing if any argument is refused.
pub open spec fn label_ops(args: Seq<Seq<char>>) -> Option<(Seq<Seq<char>>, Seq<Seq<char>>)>
    decreases args.len(),
{
    if args.len() == 0 {
        Some((seq![], seq![]))
    } else {
        match label_ops(args.drop_last()) {
            None => None,
            Some(p) => match label_op(args.last()) {
                LabelOp::Add(l) => Some((p.0.push(l), p.1)),
                LabelOp::Remove(l) => Some((p.0, p.1.push(l))),
                LabelOp::Skip => Some(p),
                LabelOp::Bad => None,
            },
        }
    }
}

/// The names of `ls` that `current` holds (`present`) or lacks (`!present`), in order.
pub open spec fn split_by_presence(
    ls: Seq<Seq<char>>,
    current: Seq<Seq<char>>,
    present: bool,
) -> Seq<Seq<char>>
    decreases ls.len(),
{
    if ls.len() == 0 {
        ls
    } else {
        let rest = split_by_presence(ls.drop_last(), current, present);
        if current.contains(ls.last()) == present {
            rest.push(ls.last())
        } else {
            rest
        }
    }
}

proof fn lemma_label_ops_failure_persists(args: Seq<Seq<char>>, k: int)
    requires
        0 <= k <= args.len(),
        label_ops(args.subrange(0, k)) is None,
    ensures
        label_ops(args) is None,
    decreases args.len() - k,
{
    if k < args.len() {
        assert(args.subrange(0, k + 1).drop_last() == args.subrange(0, k));
        lemma_label_ops_failure_persists(args, k + 1);
    } else {
        assert(args.subrange(0, k) == args);
    }
}

/// Checks a label name: no leading or trailing white space, no space, not empty.
pub fn validate_label_name(label: &str) -> (r: Result<(), StorageError>)
    ensures
        r is Ok <==> label_name_ok(label@),
        r is Err ==> r->Err_0 is Validation,
{
    let t = trim(label);
    if !str_eq(t.as_str(), label) {
        return Err(
            StorageError::validation(
                String::from_str("Label '").concat(label).concat(
                    "' has leading or trailing whitespace",
                ),
            ),
        );
    }
    if contains_char(label, ' ') {
        return Err(
            StorageError::validation(
                String::from_str("Label '").concat(label).concat("' contains spaces"),
            ),
        );
    }
    if label.unicode_len() == 0 {
        return Err(StorageError::validation(String::from_str("Label cannot be empty")));
    }
    Ok(())
}

/// Splits `+name` / `-name` arguments into names to add and names to remove.
/// Empty arguments are skipped; the first refused argument is the error.
pub fn parse_label_operations(labels: &[String]) -> (r: Result<
    (Vec<String>, Vec<String>),
    StorageError,
>)
    ensures
        r is Ok <==> label_ops(strings_view(labels@)) is Some,
        r is Ok ==> strings_view(r->Ok_0.0@) == label_ops(strings_view(labels@))->Some_0.0
            && strings_view(r->Ok_0.1@) == label_ops(strings_view(labels@))->Some_0.1,
        r is Err ==> r->Err_0 is Validation,
{
    let ghost args = strings_view(labels@);
    let mut adds: Vec<String> = Vec::new();
    let mut removes: Vec<String> = Vec::new();
    let mut i: usize = 0;
    while i < labels.len()
        invariant
            i <= labels@.len(),
            args == strings_view(labels@),
            label_ops(args.subrange(0, i as int)) == Some(
                (strings_view(adds@), strings_view(removes@)),
            ),
        decreases labels@.len() - i,
    {
        let arg = labels[i].as_str();
        let ghost before_adds = adds@;
        let ghost before_removes = removes@;
        assert(args.subrange(0, i + 1).drop_last() == args.subrange(0, i as int));
        assert(args.subrange(0, i + 1).last() == arg@);
        let n = arg.unicode_len();
        if n > 0 {
            let first = arg.get_char(0);
            if first == '+' || first == '-' {
                let name = arg.substring_char(1, n);
                if name.unicode_len() == 0 {
                    proof {
                        lemma_label_ops_failure_persists(args, i + 1);
                    }
                    if first == '+' {
                        return Err(
                            StorageError::validation(
                                String::from_str("Empty label after '+' prefix"),
                            ),
                        );
                    } else {
                        return Err(
                            StorageError::validation(
                                String::from_str("Empty label after '-' prefix"),
                            ),
                        );
                    }
                }
                match validate_label_name(name) {
                    Ok(()) => {},
                    Err(e) => {
                        proof {
                            lemma_label_ops_failure_persists(args, i + 1);
                        }
                        return Err(e);
                    },
                }
                if first == '+' {
                    adds.push(String::from_str(name));
                    assert(strings_view(adds@) =~= strings_view(before_adds).push(name@));
                } else {
                    removes.push(String::from_str(name));
                    assert(strings_view(removes@) =~= strings_view(before_removes).push(name@));
                }
            } else {
                proof {
                    lemma_label_ops_failure_persists(args, i + 1);
                }
                return Err(
                    StorageError::validation(
                        String::from_str("Label '").concat(arg).concat(
                            "' must start with '+' (to add) or '-' (to remove)",
                        ),
                    ),
                );
            }
        }
        i = i + 1;
    }
    assert(args.subrange(0, labels@.len() as int) == args);
    Ok((adds, removes))
}

/// The names of `ls` that `current` holds (`present`) or lacks (`!present`).
pub fn select_by_presence(ls: &Vec<String>, current: &Vec<String>, present: bool) -> (r: Vec<
    String,
>)
    ensures
        strings_view(r@) == split_by_presence(strings_view(ls@), strings_view(current@), present),
{
    let ghost lv = strings_view(ls@);
    let ghost cv = strings_view(current@);
    let mut r: Vec<String> = Vec::new();
    let mut i: usize = 0;
    while i < ls.len()
        invariant
            i <= ls@.len(),
            lv == strings_view(ls@),
            cv == strings_view(current@),
            strings_view(r@) == split_by_presence(lv.subrange(0, i as int), cv, present),
        decreases ls@.len() - i,
    {
        assert(lv.subrange(0, i + 1).drop_last() == lv.subrange(0, i as int));
        assert(lv.subrange(0, i + 1).last() == ls@[i as int]@);
        let ghost before = r@;
        if contains_string(current, ls[i].as_str()) == present {
            r.push(ls[i].clone());
            assert(strings_view(r@) =~= strings_view(before).push(ls@[i as int]@));
        }
        i = i + 1;
    }
    assert(lv.subrange(0, ls@.len() as int) == lv);
    r
}

/// What the label command does to an issue: the names to add (those it lacks),
/// the names to remove (those it has), and the two kinds of request that change
/// nothing, which are reported as warnings.
pub struct LabelChanges {
    pub to_add: Vec<String>,
    pub to_remove: Vec<String>,
    pub already_present: Vec<String>,
    pub not_found: Vec<String>,
}

/// Plans the label command against the labels an issue has now. At least one
/// argument is needed; every argument must be well formed.
pub fn plan_label_changes(current: &Vec<String>, args: &Vec<String>) -> (r: Result<
    LabelChanges,
    StorageError,
>)
    ensures
        r is Ok <==> args@.len() > 0 && label_ops(strings_view(args@)) is Some,
        r is Ok ==> ({
            let ops = label_ops(strings_view(args@))->Some_0;
            let cur = strings_view(current@);
            let c = r->Ok_0;
            &&& strings_view(c.to_add@) == split_by_presence(ops.0, cur, false)
            &&& strings_view(c.already_present@) == split_by_presence(ops.0, cur, true)
            &&& strings_view(c.to_remove@) == split_by_presence(ops.1, cur, true)
            &&& strings_view(c.not_found@) == split_by_presence(ops.1, cur, false)
        }),
        r is Err ==> r->Err_0 is Validation,
{
    if args.len() == 0 {
        return Err(
            StorageError::validation(
                String::from_str(
                    "No label operations specified. Use +label to add or -label to remove",
                ),
            ),
        );
    }
    let (adds, removes) = parse_label_operations(args.as_slice())?;
    Ok(
        LabelChanges {
            to_add: select_by_presence(&adds, current, false),
            to_remove: select_by_presence(&removes, current, true),
            already_present: select_by_presence(&adds, current, true),
            not_found: select_by_presence(&removes, current, false),
        },
    )
}

} // verus!
