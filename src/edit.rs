//! Editing an issue as a whole: the editable form, its validation, and the
//! changes that an edited form asks for.
use vstd::prelude::*;
use vstd::string::*;
use crate::errors::StorageError;
use crate::identity::{Identity, IdentityView, opt_identity_view, same_opt};
use crate::issue::{Issue, contains_string, labels_without, strings_view, with_label, without_label};
use crate::labels::{label_name_ok, select_by_presence, split_by_presence};
use crate::status::{IssueStatus, status_alias, status_text};
use crate::issue::IssueView;
use crate::sync::opt_str_view;
use crate::text::{contains_char, lower_of, str_eq, trim, trim_of};

verus! {

/// The fields of an issue that the edit command can change. The status is a
/// word and the assignee an e-mail address, as a person types them.
#[derive(Debug, Clone)]
pub struct EditableIssue {
    pub title: String,
    pub status: String,
    pub labels: Vec<String>,
    pub assignee: Option<String>,
    pub description: String,
}

/// The options of the edit command.
#[derive(Debug, Clone)]
pub struct EditArgs {
    pub id: u64,
    pub title: Option<String>,
    pub description: Option<String>,
    pub status: Option<String>,
    pub add_label: Vec<String>,
    pub remove_label: Vec<String>,
    pub assignee: Option<String>,
    pub no_editor: bool,
    pub author_name: Option<String>,
    pub author_email: Option<String>,
}

/// Whether every label is well formed.
pub open spec fn labels_ok(labels: Seq<Seq<char>>) -> bool {
    forall|i: int| 0 <= i < labels.len() ==> label_name_ok(#[trigger] labels[i])
}

/// Whether a form with these fields can be applied: a title that is not blank,
/// a status word, well-formed labels, and an assignee address with an `@`.
pub open spec fn form_ok(
    title: Seq<char>,
    status: Seq<char>,
    labels: Seq<Seq<char>>,
    assignee: Option<Seq<char>>,
) -> bool {
    &&& trim_of(title).len() > 0
    &&& status_alias(lower_of(status)) is Some
    &&& labels_ok(labels)
    &&& (assignee is Some ==> assignee->Some_0.contains('@'))
}

/// Whether an edited form can be applied.
pub open spec fn editable_ok(e: EditableIssue) -> bool {
    form_ok(e.title@, e.status@, strings_view(e.labels@), opt_str_view(e.assignee))
}

/// The title of the form that the edit command's options give.
pub open spec fn cli_title(i: IssueView, args: EditArgs) -> Seq<char> {
    if args.title is Some {
        args.title->Some_0@
    } else {
        i.title
    }
}

/// The description of the form that the edit command's options give.
pub open spec fn cli_description(i: IssueView, args: EditArgs) -> Seq<char> {
    if args.description is Some {
        args.description->Some_0@
    } else {
        i.description
    }
}

/// The status word of the form that the edit command's options give.
pub open spec fn cli_status(i: IssueView, args: EditArgs) -> Seq<char> {
    if args.status is Some {
        args.status->Some_0@
    } else {
        status_text(i.status)
    }
}

/// The assignee address of the form that the edit command's options give: the
/// one given, else the primary assignee's.
pub open spec fn cli_assignee(i: IssueView, args: EditArgs) -> Option<Seq<char>> {
    if args.assignee is Some {
        Some(args.assignee->Some_0@)
    } else if i.assignees.len() > 0 {
        Some(i.assignees[0].email)
    } else {
        None
    }
}

/// The labels of the form that the edit command's options give.
pub open spec fn cli_labels(i: IssueView, args: EditArgs) -> Seq<Seq<char>> {
    remove_all(add_all(i.labels, strings_view(args.add_label@)), strings_view(args.remove_label@))
}

/// `labels` with each of `adds` (trimmed) added when absent.
pub open spec fn add_all(labels: Seq<Seq<char>>, adds: Seq<Seq<char>>) -> Seq<Seq<char>>
    decreases adds.len(),
{
    if adds.len() == 0 {
        labels
    } else {
        with_label(add_all(labels, adds.drop_last()), trim_of(adds.last()))
    }
}

/// `labels` with each of `removes` (trimmed) taken out.
pub open spec fn remove_all(labels: Seq<Seq<char>>, removes: Seq<Seq<char>>) -> Seq<Seq<char>>
    decreases removes.len(),
{
    if removes.len() == 0 {
        labels
    } else {
        without_label(remove_all(labels, removes.drop_last()), trim_of(removes.last()))
    }
}

/// Checks an edited form.
pub fn validate_editable_issue(editable: &EditableIssue) -> (r: Result<(), StorageError>)
    ensures
        r is Ok <==> editable_ok(*editable),
        r is Err ==> r->Err_0 is Validation,
{
    let t = trim(editable.title.as_str());
    if t.as_str().unicode_len() == 0 {
        return Err(StorageError::validation(String::from_str("Title cannot be empty")));
    }
    IssueStatus::parse(editable.status.as_str())?;
    let ghost lv = strings_view(editable.labels@);
    let mut i: usize = 0;
    while i < editable.labels.len()
        invariant
            i <= editable.labels@.len(),
            lv == strings_view(editable.labels@),
            forall|k: int| 0 <= k < i ==> label_name_ok(#[trigger] lv[k]),
        decreases editable.labels@.len() - i,
    {
        let label = editable.labels[i].as_str();
        assert(lv[i as int] == label@);
        let trimmed = trim(label);
        if !str_eq(trimmed.as_str(), label) {
            return Err(
                StorageError::validation(
                    String::from_str("Label '").concat(label).concat(
                        "' has leading/trailing whitespace",
                    ),
                ),
            );
        }
        if contains_char(label, ' ') {
            return Err(
                StorageError::validation(
                    String::from_str("Label '").concat(label).concat("' contains spaces"),
                ),
            );
        }
        if label.unicode_len() == 0 {
            return Err(StorageError::validation(String::from_str("Empty label found")));
        }
        i = i + 1;
    }
    match &editable.assignee {
        Some(email) => {
            if !contains_char(email.as_str(), '@') {
                return Err(
                    StorageError::validation(
                        String::from_str("Invalid email format: ").concat(email.as_str()),
                    ),
                );
            }
        },
        None => {},
    }
    Ok(())
}

fn copy_strings(v: &Vec<String>) -> (r: Vec<String>)
    ensures
        strings_view(r@) == strings_view(v@),
{
    let mut r: Vec<String> = Vec::new();
    let mut i: usize = 0;
    while i < v.len()
        invariant
            i <= v@.len(),
            r@.len() == i,
            forall|k: int| 0 <= k < i ==> r@[k]@ == v@[k]@,
        decreases v@.len() - i,
    {
        r.push(v[i].clone());
        i = i + 1;
    }
    assert(strings_view(r@) =~= strings_view(v@));
    r
}

/// The labels after the edit command's `--add-label` and `--remove-label`
/// options: additions first, then removals, each argument trimmed.
pub fn edited_labels(current: &Vec<String>, adds: &Vec<String>, removes: &Vec<String>) -> (r: Vec<
    String,
>)
    ensures
        strings_view(r@) == remove_all(
            add_all(strings_view(current@), strings_view(adds@)),
            strings_view(removes@),
        ),
{
    let ghost av = strings_view(adds@);
    let ghost rv = strings_view(removes@);
    let mut labels = copy_strings(current);
    let mut i: usize = 0;
    while i < adds.len()
        invariant
            i <= adds@.len(),
            av == strings_view(adds@),
            strings_view(labels@) == add_all(strings_view(current@), av.subrange(0, i as int)),
        decreases adds@.len() - i,
    {
        assert(av.subrange(0, i + 1).drop_last() == av.subrange(0, i as int));
        assert(av.subrange(0, i + 1).last() == adds@[i as int]@);
        let t = trim(adds[i].as_str());
        if !contains_string(&labels, t.as_str()) {
            let ghost before = labels@;
            labels.push(t);
            assert(strings_view(labels@) =~= strings_view(before).push(trim_of(adds@[i as int]@)));
        }
        i = i + 1;
    }
    assert(av.subrange(0, adds@.len() as int) == av);
    let ghost added = strings_view(labels@);
    let mut j: usize = 0;
    while j < removes.len()
        invariant
            j <= removes@.len(),
            rv == strings_view(removes@),
            strings_view(labels@) == remove_all(added, rv.subrange(0, j as int)),
        decreases removes@.len() - j,
    {
        assert(rv.subrange(0, j + 1).drop_last() == rv.subrange(0, j as int));
        assert(rv.subrange(0, j + 1).last() == removes@[j as int]@);
        let t = trim(removes[j].as_str());
        labels = labels_without(&labels, t.as_str());
        j = j + 1;
    }
    assert(rv.subrange(0, removes@.len() as int) == rv);
    labels
}

/// The editable form of an issue with the edit command's options applied, checked.
/// The assignee is the primary assignee's address.
pub fn apply_cli_edits(current_issue: &Issue, args: &EditArgs, author_email: &str) -> (r: Result<
    EditableIssue,
    StorageError,
>)
    ensures
        r is Ok <==> form_ok(
            cli_title(current_issue@, *args),
            cli_status(current_issue@, *args),
            cli_labels(current_issue@, *args),
            cli_assignee(current_issue@, *args),
        ),
        r is Ok ==> ({
            let e = r->Ok_0;
            &&& e.title@ == cli_title(current_issue@, *args)
            &&& e.description@ == cli_description(current_issue@, *args)
            &&& e.status@ == cli_status(current_issue@, *args)
            &&& opt_str_view(e.assignee) == cli_assignee(current_issue@, *args)
            &&& strings_view(e.labels@) == cli_labels(current_issue@, *args)
        }),
        r is Err ==> r->Err_0 is Validation,
{
    let title = match &args.title {
        Some(t) => t.clone(),
        None => current_issue.title.clone(),
    };
    let description = match &args.description {
        Some(d) => d.clone(),
        None => current_issue.description.clone(),
    };
    let status = match &args.status {
        Some(s) => s.clone(),
        None => current_issue.status.to_string(),
    };
    let assignee = match &args.assignee {
        Some(a) => Some(a.clone()),
        None => if current_issue.assignees.len() > 0 {
            Some(current_issue.assignees[0].email.clone())
        } else {
            None
        },
    };
    let labels = edited_labels(&current_issue.labels, &args.add_label, &args.remove_label);
    let editable = EditableIssue { title, status, labels, assignee, description };
    validate_editable_issue(&editable)?;
    Ok(editable)
}

/// The changes that an edited form asks for; each is present only when it
/// differs from the issue.
pub struct EditPlan {
    pub title: Option<String>,
    pub description: Option<String>,
    pub status: Option<IssueStatus>,
    /// The new primary assignee, known by address only.
    pub assignee: Option<Option<Identity>>,
    pub added_labels: Vec<String>,
    pub removed_labels: Vec<String>,
}

/// The assignee that a form names: an identity with no name and the given address.
pub open spec fn form_assignee(a: Option<String>) -> Option<IdentityView> {
    match a {
        Some(email) => Some(IdentityView { name: ""@, email: email@ }),
        None => None,
    }
}

/// Compares an edited form with the issue it came from. The title is trimmed;
/// the status word must name a status.
pub fn plan_edit(original: &Issue, edited: &EditableIssue) -> (r: Result<EditPlan, StorageError>)
    ensures
        r is Ok <==> status_alias(lower_of(edited.status@)) is Some,
        r is Ok ==> ({
            let p = r->Ok_0;
            let o = original@;
            let new_status = status_alias(lower_of(edited.status@))->Some_0;
            let primary = if o.assignees.len() > 0 {
                Some(o.assignees[0])
            } else {
                None
            };
            &&& opt_str_view(p.title) == (if o.title == trim_of(edited.title@) {
                None
            } else {
                Some(trim_of(edited.title@))
            })
            &&& opt_str_view(p.description) == (if o.description == edited.description@ {
                None
            } else {
                Some(edited.description@)
            })
            &&& p.status == (if o.status == new_status {
                None
            } else {
                Some(new_status)
            })
            &&& (primary == form_assignee(edited.assignee) ==> p.assignee is None)
            &&& (primary != form_assignee(edited.assignee) ==> p.assignee is Some
                && opt_identity_view(p.assignee->Some_0) == form_assignee(edited.assignee))
            &&& strings_view(p.added_labels@) == split_by_presence(
                strings_view(edited.labels@),
                o.labels,
                false,
            )
            &&& strings_view(p.removed_labels@) == split_by_presence(
                o.labels,
                strings_view(edited.labels@),
                false,
            )
        }),
        r is Err ==> r->Err_0 is Validation,
{
    let new_status = IssueStatus::parse(edited.status.as_str())?;
    let new_title = trim(edited.title.as_str());
    let title = if original.title == new_title {
        None
    } else {
        Some(new_title)
    };
    let description = if original.description == edited.description {
        None
    } else {
        Some(edited.description.clone())
    };
    let status = if original.status == new_status {
        None
    } else {
        Some(new_status)
    };
    let new_assignee = match &edited.assignee {
        Some(email) => Some(Identity { name: String::new(), email: email.clone() }),
        None => None,
    };
    proof {
        reveal_strlit("");
        assert(new_assignee is Some ==> new_assignee->Some_0@.name == ""@);
    }
    let primary = original.assignee();
    assert(opt_identity_view(new_assignee) == form_assignee(edited.assignee));
    let assignee = if same_opt(&primary, &new_assignee) {
        None
    } else {
        Some(new_assignee)
    };
    Ok(
        EditPlan {
            title,
            description,
            status,
            assignee,
            added_labels: select_by_presence(&edited.labels, &original.labels, false),
            removed_labels: select_by_presence(&original.labels, &edited.labels, false),
        },
    )
}

/// Where the first `\n` of a text is, if it has one.
pub open spec fn newline_index(s: Seq<char>) -> Option<nat>
    decreases s.len(),
{
    if s.len() == 0 {
        None
    } else if s[0] == '\n' {
        Some(0)
    } else {
        match newline_index(s.drop_first()) {
            Some(k) => Some(k + 1),
            None => None,
        }
    }
}

/// `newline_index` finds the first `\n`, or tells that there is none.
pub proof fn lemma_newline_index(s: Seq<char>)
    ensures
        newline_index(s) is None ==> forall|j: int| 0 <= j < s.len() ==> s[j] != '\n',
        newline_index(s) is Some ==> ({
            let k = newline_index(s)->Some_0 as int;
            &&& k < s.len()
            &&& s[k] == '\n'
            &&& forall|j: int| 0 <= j < k ==> s[j] != '\n'
        }),
    decreases s.len(),
{
    if s.len() > 0 && s[0] != '\n' {
        lemma_newline_index(s.drop_first());
        assert forall|j: int| 1 <= j < s.len() implies s[j] == s.drop_first()[j - 1] by {}
    }
}

/// The line before position `k` (a `\n`), without a `\r` just before it.
pub open spec fn line_before(s: Seq<char>, k: int) -> Seq<char> {
    if k > 0 && s[k - 1] == '\r' {
        s.subrange(0, k - 1)
    } else {
        s.subrange(0, k)
    }
}

/// The lines of a text as `str::lines` gives them: split after each `\n`, with
/// the `\n` and a `\r` just before it dropped; a final line ending adds no
/// empty line.
pub open spec fn lines_of(s: Seq<char>) -> Seq<Seq<char>>
    decreases s.len(),
{
    if s.len() == 0 {
        seq![]
    } else {
        match newline_index(s) {
            None => seq![s],
            Some(k) => {
                proof {
                    lemma_newline_index(s);
                }
                seq![line_before(s, k as int)] + lines_of(s.subrange(k as int + 1, s.len() as int))
            },
        }
    }
}

/// `items`, each after `prefix`, one per line.
pub open spec fn prefixed_lines(items: Seq<Seq<char>>, prefix: Seq<char>) -> Seq<char>
    decreases items.len(),
{
    if items.len() == 0 {
        seq![]
    } else if items.len() == 1 {
        prefix + items[0]
    } else {
        prefixed_lines(items.drop_last(), prefix) + "\n"@ + prefix + items.last()
    }
}

/// The form that the edit command opens in an editor.
pub open spec fn template_text(i: IssueView, default_assignee_email: Seq<char>) -> Seq<char> {
    let labels = if i.labels.len() == 0 {
        "  []"@
    } else {
        prefixed_lines(i.labels, "  - "@)
    };
    let assignee = if i.assignees.len() > 0 {
        i.assignees[0].email
    } else {
        default_assignee_email
    };
    "# Edit the fields below. Save and close to apply changes.\n# Leave fields unchanged to keep current values.\n# Set assignee to null to unassign.\n\ntitle: \""@
        + i.title + "\"\nstatus: "@ + status_text(i.status)
        + "  # Options: todo, in-progress, done\nlabels:\n"@ + labels + "\nassignee: \""@
        + assignee + "\"  # Optional: email address or null\ndescription: |\n"@
        + prefixed_lines(lines_of(i.description), "  "@)
}

/// The position of the first `\n` at or after `from`, if any.
fn next_newline(s: &str, from: usize) -> (r: Option<usize>)
    requires
        from <= s@.len(),
    ensures
        r is None ==> forall|k: int| from <= k < s@.len() ==> s@[k] != '\n',
        r is Some ==> from <= r->Some_0 < s@.len() && s@[r->Some_0 as int] == '\n' && forall|k: int|
            from <= k < r->Some_0 ==> s@[k] != '\n',
{
    let n = s.unicode_len();
    let mut i = from;
    while i < n
        invariant
            n == s@.len(),
            from <= i <= n,
            forall|k: int| from <= k < i ==> s@[k] != '\n',
        decreases n - i,
    {
        if s.get_char(i) == '\n' {
            return Some(i);
        }
        i = i + 1;
    }
    None
}

proof fn lemma_lines_step(s: Seq<char>, k: int)
    requires
        0 <= k < s.len(),
        s[k] == '\n',
        forall|j: int| 0 <= j < k ==> s[j] != '\n',
    ensures
        lines_of(s) == seq![line_before(s, k)] + lines_of(s.subrange(k + 1, s.len() as int)),
{
    lemma_newline_index(s);
    let c = newline_index(s)->Some_0 as int;
    if c < k {
        assert(s[c] != '\n');
    } else if c > k {
        assert(s[k] != '\n');
    }
}

proof fn lemma_lines_last(s: Seq<char>)
    requires
        s.len() > 0,
        forall|j: int| 0 <= j < s.len() ==> s[j] != '\n',
    ensures
        lines_of(s) == seq![s],
{
    lemma_newline_index(s);
}

/// The lines of a text, as `str::lines` splits it.
pub fn split_lines(s: &str) -> (r: Vec<String>)
    ensures
        strings_view(r@) == lines_of(s@),
{
    let n = s.unicode_len();
    let mut out: Vec<String> = Vec::new();
    let mut start: usize = 0;
    assert(s@.subrange(0, n as int) == s@);
    assert(strings_view(out@) + lines_of(s@) =~= lines_of(s@));
    while start < n
        invariant
            n == s@.len(),
            start <= n,
            strings_view(out@) + lines_of(s@.subrange(start as int, n as int)) == lines_of(s@),
        decreases n - start,
    {
        let ghost rest = s@.subrange(start as int, n as int);
        match next_newline(s, start) {
            Some(k) => {
                let end = if k > start && s.get_char(k - 1) == '\r' {
                    k - 1
                } else {
                    k
                };
                let ghost before = out@;
                let line = s.substring_char(start, end);
                out.push(String::from_str(line));
                proof {
                    let kk = k - start;
                    assert forall|j: int| 0 <= j < kk implies rest[j] != '\n' by {
                        assert(rest[j] == s@[start + j]);
                    }
                    lemma_lines_step(rest, kk);
                    assert(rest.subrange(kk + 1, rest.len() as int) == s@.subrange(k + 1, n as int));
                    assert(line_before(rest, kk) == line@);
                    assert(strings_view(out@) == strings_view(before).push(line@));
                    assert(strings_view(out@) + lines_of(s@.subrange(k + 1, n as int)) =~= strings_view(before) + (seq![line@] + lines_of(s@.subrange(k + 1, n as int))));
                }
                start = k + 1;
            },
            None => {
                let ghost before = out@;
                let line = s.substring_char(start, n);
                out.push(String::from_str(line));
                proof {
                    assert forall|j: int| 0 <= j < rest.len() implies rest[j] != '\n' by {
                        assert(rest[j] == s@[start + j]);
                    }
                    lemma_lines_last(rest);
                    assert(line@ == rest);
                    assert(s@.subrange(n as int, n as int).len() == 0);
                    assert(strings_view(out@) =~= strings_view(before).push(rest));
                    assert(strings_view(out@) + lines_of(s@.subrange(n as int, n as int)) =~= strings_view(before) + lines_of(rest));
                }
                start = n;
            },
        }
    }
    assert(lines_of(s@.subrange(n as int, n as int)) == Seq::<Seq<char>>::empty());
    assert(strings_view(out@) =~= strings_view(out@) + Seq::<Seq<char>>::empty());
    out
}

/// `items`, each after `prefix`, one per line.
pub fn join_prefixed(items: &Vec<String>, prefix: &str) -> (r: String)
    ensures
        r@ == prefixed_lines(strings_view(items@), prefix@),
{
    let ghost iv = strings_view(items@);
    let mut out = String::new();
    let mut i: usize = 0;
    while i < items.len()
        invariant
            i <= items@.len(),
            iv == strings_view(items@),
            out@ == prefixed_lines(iv.subrange(0, i as int), prefix@),
        decreases items@.len() - i,
    {
        assert(iv.subrange(0, i + 1).drop_last() == iv.subrange(0, i as int));
        assert(iv.subrange(0, i + 1).last() == items@[i as int]@);
        if i == 0 {
            assert(iv.subrange(0, 0).len() == 0);
            out = String::from_str(prefix).concat(items[i].as_str());
            assert(iv.subrange(0, 1)[0] == items@[0]@);
        } else {
            out = out.concat("\n").concat(prefix).concat(items[i].as_str());
        }
        i = i + 1;
    }
    assert(iv.subrange(0, items@.len() as int) == iv);
    out
}

/// The form that the edit command opens in an editor: the issue's fields as
/// YAML, with the primary assignee or, without one, the given address.
pub fn create_template(issue: &Issue, default_assignee_email: &str) -> (r: String)
    ensures
        r@ == template_text(issue@, default_assignee_email@),
{
    let labels = if issue.labels.len() == 0 {
        String::from_str("  []")
    } else {
        join_prefixed(&issue.labels, "  - ")
    };
    let assignee = if issue.assignees.len() > 0 {
        issue.assignees[0].email.clone()
    } else {
        String::from_str(default_assignee_email)
    };
    let description = join_prefixed(&split_lines(issue.description.as_str()), "  ");
    let status = issue.status.to_string();
    String::from_str(
        "# Edit the fields below. Save and close to apply changes.\n# Leave fields unchanged to keep current values.\n# Set assignee to null to unassign.\n\ntitle: \"",
    ).concat(issue.title.as_str()).concat("\"\nstatus: ").concat(status.as_str()).concat(
        "  # Options: todo, in-progress, done\nlabels:\n",
    ).concat(labels.as_str()).concat("\nassignee: \"").concat(assignee.as_str()).concat(
        "\"  # Optional: email address or null\ndescription: |\n",
    ).concat(description.as_str())
}

} // verus!
