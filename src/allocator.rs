//! The issue-id counter: a blob holding the next id in decimal, read and
//! rewritten under a compare-and-swap of its reference.
use vstd::prelude::*;
use vstd::string::*;
use crate::errors::{GitError, StorageError};
use crate::text::{
    all_digits,
    decimal,
    decimal_string,
    digits_value,
    is_digit,
    lemma_decimal_reads_back,
    lemma_leading_white,
    lemma_trailing_white,
    parse_u64,
    trim,
    trim_of,
};

verus! {

/// How many times an allocation is tried before `ConcurrentAllocation` is reported.
pub const ALLOCATION_ATTEMPTS: u32 = 32;

/// A run of digits read as a `u64`, if it fits.
pub open spec fn read_digits(s: Seq<char>) -> Option<u64> {
    if all_digits(s) && digits_value(s) <= u64::MAX {
        Some(digits_value(s) as u64)
    } else {
        None
    }
}

/// The value of a counter blob: its digits once surrounding white space is trimmed.
pub open spec fn counter_value(t: Seq<char>) -> Option<u64> {
    read_digits(trim_of(t))
}

/// The text that a counter blob holds for `n`: its decimal spelling and a newline.
pub open spec fn counter_text(n: nat) -> Seq<char> {
    decimal(n) + "\n"@
}

/// The next id to issue: 1 when there is no counter yet, else the value of its blob.
pub open spec fn peek_spec(blob: Option<Seq<char>>) -> Option<u64> {
    match blob {
        None => Some(1),
        Some(t) => counter_value(t),
    }
}

/// One allocation: the id handed out and the text of the new counter blob.
pub open spec fn allocate_spec(blob: Option<Seq<char>>) -> Option<(u64, Seq<char>)> {
    match peek_spec(blob) {
        Some(v) => if v < u64::MAX {
            Some((v, counter_text((v + 1) as nat)))
        } else {
            None
        },
        None => None,
    }
}

/// The ids that `m` allocations in a row hand out, starting from the counter blob `t`.
pub open spec fn allocation_run(t: Seq<char>, m: nat) -> Seq<u64>
    decreases m,
{
    if m == 0 {
        seq![]
    } else {
        match allocate_spec(Some(t)) {
            Some(p) => seq![p.0].add(allocation_run(p.1, (m - 1) as nat)),
            None => seq![],
        }
    }
}

/// Reads a counter blob.
pub fn counter_from_text(text: &str) -> (r: Option<u64>)
    ensures
        r == counter_value(text@),
{
    let t = trim(text);
    parse_u64(t.as_str())
}

/// The next id to issue, given the counter blob if its reference exists.
pub fn peek_next_id(blob: Option<&str>) -> (r: Result<u64, StorageError>)
    ensures
        r is Ok <==> peek_spec(
            match blob {
                Some(t) => Some(t@),
                None => None,
            },
        ) is Some,
        r is Ok ==> r->Ok_0 == peek_spec(
            match blob {
                Some(t) => Some(t@),
                None => None,
            },
        )->Some_0,
        r is Err ==> r->Err_0 matches StorageError::Git(GitError::InvalidObjectData { .. }),
{
    match blob {
        None => Ok(1),
        Some(t) => match counter_from_text(t) {
            Some(v) => Ok(v),
            None => Err(
                StorageError::Git(
                    GitError::InvalidObjectData {
                        message: String::from_str("Invalid issue ID format: ").concat(t),
                    },
                ),
            ),
        },
    }
}

/// The text of the counter blob for `n`.
pub fn counter_blob(n: u64) -> (r: String)
    ensures
        r@ == counter_text(n as nat),
{
    decimal_string(n).concat("\n")
}

/// One allocation: the id to hand out and the new counter blob to write.
/// A counter at `u64::MAX` cannot advance.
pub fn allocate_step(blob: Option<&str>) -> (r: Result<(u64, String), StorageError>)
    ensures
        ({
            let b = match blob {
                Some(t) => Some(t@),
                None => None,
            };
            &&& r is Ok <==> allocate_spec(b) is Some
            &&& r is Ok ==> r->Ok_0.0 == allocate_spec(b)->Some_0.0 && r->Ok_0.1@ == allocate_spec(
                b,
            )->Some_0.1
        }),
{
    let v = peek_next_id(blob)?;
    if v == u64::MAX {
        return Err(
            StorageError::Git(
                GitError::InvalidObjectData {
                    message: String::from_str("Issue ID counter is exhausted"),
                },
            ),
        );
    }
    Ok((v, counter_blob(v + 1)))
}

/// Whether a failed compare-and-swap of the counter may be retried: `attempt`
/// counts the attempts made so far, from 1.
pub fn allocation_retry(attempt: u32) -> (r: Result<(), StorageError>)
    ensures
        r is Ok <==> attempt < ALLOCATION_ATTEMPTS,
        r is Err ==> r->Err_0 is ConcurrentAllocation,
{
    if attempt < ALLOCATION_ATTEMPTS {
        Ok(())
    } else {
        Err(StorageError::ConcurrentAllocation)
    }
}

/// A counter blob written by an allocation reads back as the value it was written for.
pub proof fn lemma_counter_reads_back(n: u64)
    ensures
        counter_value(counter_text(n as nat)) == Some(n),
{
    lemma_decimal_reads_back(n as nat);
    let d = decimal(n as nat);
    let t = counter_text(n as nat);
    reveal_strlit("\n");
    assert(t =~= d.push('\n'));
    assert(is_digit(d[0]) && is_digit(d[d.len() - 1]));
    assert(t[0] == d[0] && t[t.len() - 2] == d[d.len() - 1]);
    lemma_leading_white(t, 0);
    lemma_trailing_white(t, t.len() - 1);
    assert(trim_of(t) =~= d);
}

/// Allocations in a row from a counter at `k` hand out `k, k + 1, …, k + m - 1`
/// and leave the counter at `k + m`: the ids are consecutive, each used once.
pub proof fn lemma_allocations_consecutive(k: u64, m: nat)
    requires
        k + m <= u64::MAX,
    ensures
        allocation_run(counter_text(k as nat), m) == Seq::new(m, |j: int| (k + j) as u64),
    decreases m,
{
    if m > 0 {
        lemma_counter_reads_back(k);
        if m > 1 || k < u64::MAX {
            assert(k < u64::MAX);
            lemma_allocations_consecutive((k + 1) as u64, (m - 1) as nat);
            assert(allocation_run(counter_text(k as nat), m) =~= Seq::new(m, |j: int| (k + j) as u64));
        }
    } else {
        assert(allocation_run(counter_text(k as nat), m) =~= Seq::new(m, |j: int| (k + j) as u64));
    }
}

} // verus!
