//! Text helpers for showing issues: elapsed time in words and the first
//! paragraph of a description.
use vstd::prelude::*;
use vstd::string::*;
use crate::text::{decimal, decimal_string, is_white_space, trim, trim_of, white_space};

verus! {

/// Whether a word starts at position `i`: a character that is not white space,
/// first or after white space.
pub open spec fn word_starts_at(s: Seq<char>, i: int) -> bool {
    0 <= i < s.len() && !white_space(s[i]) && (i == 0 || white_space(s[i - 1]))
}

/// The number of maximal runs of characters that are not white space.
pub open spec fn word_count_of(s: Seq<char>) -> nat
    decreases s.len(),
{
    if s.len() == 0 {
        0
    } else {
        word_count_of(s.drop_last()) + if word_starts_at(s, s.len() - 1) {
            1nat
        } else {
            0nat
        }
    }
}

proof fn lemma_word_count_bounded(s: Seq<char>)
    ensures
        word_count_of(s) <= s.len(),
    decreases s.len(),
{
    if s.len() > 0 {
        lemma_word_count_bounded(s.drop_last());
    }
}

/// The number of words of a text: maximal runs of characters that are not white space.
pub fn count_words(s: &str) -> (r: usize)
    ensures
        r as nat == word_count_of(s@),
{
    let n = s.unicode_len();
    let mut count: usize = 0;
    let mut previous_white = true;
    let mut i: usize = 0;
    while i < n
        invariant
            n == s@.len(),
            i <= n,
            count as nat == word_count_of(s@.subrange(0, i as int)),
            previous_white == (i == 0 || white_space(s@[i - 1])),
        decreases n - i,
    {
        proof {
            lemma_word_count_bounded(s@.subrange(0, i as int));
            let p = s@.subrange(0, i + 1);
            assert(p.drop_last() == s@.subrange(0, i as int));
            assert(word_starts_at(p, i as int) == word_starts_at(s@, i as int));
        }
        let c = s.get_char(i);
        let white = is_white_space(c);
        if !white && previous_white {
            count = count + 1;
        }
        previous_white = white;
        i = i + 1;
    }
    assert(s@.subrange(0, n as int) == s@);
    count
}

/// `n` followed by the unit, plural unless `n` is 1.
pub open spec fn amount_text(n: nat, unit: Seq<char>) -> Seq<char> {
    decimal(n) + " "@ + unit + (if n == 1 {
        ""@
    } else {
        "s"@
    })
}

/// Elapsed seconds in the largest whole unit: seconds under a minute, then
/// minutes, hours, days, months of 30 days, and years of 12 months.
pub open spec fn time_ago_text(secs: nat) -> Seq<char> {
    let minutes = secs / 60;
    let hours = minutes / 60;
    let days = hours / 24;
    let months = days / 30;
    if secs < 60 {
        amount_text(secs, "second"@)
    } else if minutes < 60 {
        amount_text(minutes, "minute"@)
    } else if hours < 24 {
        amount_text(hours, "hour"@)
    } else if days < 30 {
        amount_text(days, "day"@)
    } else if months < 12 {
        amount_text(months, "month"@)
    } else {
        amount_text(months / 12, "year"@)
    }
}

/// Whether a paragraph break (two newlines) starts at `i`.
pub open spec fn break_at(s: Seq<char>, i: int) -> bool {
    0 <= i && i + 1 < s.len() && s[i] == '\n' && s[i + 1] == '\n'
}

/// Where the first paragraph break starts, if there is one.
pub open spec fn first_break(s: Seq<char>) -> Option<int> {
    if exists|i: int| break_at(s, i) {
        Some(choose|i: int| break_at(s, i) && forall|j: int| 0 <= j < i ==> !break_at(s, j))
    } else {
        None
    }
}

fn amount(n: u64, unit: &str) -> (r: String)
    ensures
        r@ == amount_text(n as nat, unit@),
{
    let s = decimal_string(n).concat(" ").concat(unit);
    if n == 1 {
        proof {
            reveal_strlit("");
            assert(s@ + ""@ == s@);
        }
        s
    } else {
        s.concat("s")
    }
}

/// Elapsed time in words, such as `1 second`, `5 minutes` or `2 years`.
pub fn format_time_ago(total_seconds: u64) -> (r: String)
    ensures
        r@ == time_ago_text(total_seconds as nat),
{
    if total_seconds < 60 {
        return amount(total_seconds, "second");
    }
    let minutes = total_seconds / 60;
    if minutes < 60 {
        return amount(minutes, "minute");
    }
    let hours = minutes / 60;
    if hours < 24 {
        return amount(hours, "hour");
    }
    let days = hours / 24;
    if days < 30 {
        return amount(days, "day");
    }
    let months = days / 30;
    if months < 12 {
        return amount(months, "month");
    }
    amount(months / 12, "year")
}

fn find_break(s: &str) -> (r: Option<usize>)
    ensures
        r is None ==> forall|i: int| !break_at(s@, i),
        r is Some ==> break_at(s@, r->Some_0 as int) && forall|j: int|
            0 <= j < r->Some_0 ==> !break_at(s@, j),
{
    let n = s.unicode_len();
    let mut i: usize = 0;
    while i < n && i + 1 < n
        invariant
            n == s@.len(),
            i <= n,
            forall|j: int| 0 <= j < i ==> !break_at(s@, j),
        decreases n - i,
    {
        if s.get_char(i) == '\n' && s.get_char(i + 1) == '\n' {
            return Some(i);
        }
        i = i + 1;
    }
    assert forall|j: int| !break_at(s@, j) by {
        if 0 <= j < i {
        }
    }
    None
}

/// The first paragraph of a text, trimmed, with the number of words after it
/// when there are any. A text without a paragraph break comes back whole.
pub fn truncate_to_first_paragraph(text: &str) -> (r: (String, Option<usize>))
    ensures
        text@.len() == 0 ==> r.0@.len() == 0 && r.1 is None,
        text@.len() > 0 && first_break(text@) is None ==> r.0@ == text@ && r.1 is None,
        text@.len() > 0 && first_break(text@) is Some ==> ({
            let i = first_break(text@)->Some_0;
            let words = word_count_of(text@.subrange(i + 2, text@.len() as int));
            &&& r.0@ == trim_of(text@.subrange(0, i))
            &&& r.1 == (if words > 0 {
                Some(words as usize)
            } else {
                None
            })
        }),
{
    let n = text.unicode_len();
    if n == 0 {
        return (String::new(), None);
    }
    match find_break(text) {
        None => {
            assert(!exists|i: int| break_at(text@, i));
            (String::from_str(text), None)
        },
        Some(i) => {
            proof {
                let k = first_break(text@)->Some_0;
                assert(break_at(text@, k) && forall|j: int| 0 <= j < k ==> !break_at(text@, j));
                assert(k == i);
            }
            let first = trim(text.substring_char(0, i));
            let words = count_words(text.substring_char(i + 2, n));
            if words > 0 {
                (first, Some(words))
            } else {
                (first, None)
            }
        },
    }
}

} // verus!
