//! Looking for one text in another.

use vstd::prelude::*;

verus! {

/// Whether `text` begins with `prefix`.
pub open spec fn starts_with(text: Seq<char>, prefix: Seq<char>) -> bool {
    prefix.len() <= text.len() && text.take(prefix.len() as int) == prefix
}

/// Whether `needle` stands in `text` at index `at`.
pub open spec fn occurs_at(text: Seq<char>, needle: Seq<char>, at: int) -> bool {
    0 <= at && at + needle.len() <= text.len() && text.subrange(at, at + needle.len()) == needle
}

/// Whether `needle` stands somewhere in `text`.
pub open spec fn contains_text(text: Seq<char>, needle: Seq<char>) -> bool {
    exists|at: int| occurs_at(text, needle, at)
}

/// Whether `needle` stands in `text` at index `at`.
pub fn matches_at(text: &Vec<char>, at: usize, needle: &Vec<char>) -> (found: bool)
    ensures
        found == occurs_at(text@, needle@, at as int),
{
    if at > text.len() || needle.len() > text.len() - at {
        return false;
    }
    let mut i: usize = 0;
    while i < needle.len()
        invariant
            i <= needle.len(),
            at + needle.len() <= text.len(),
            forall|j: int| 0 <= j < i ==> text@[at + j] == needle@[j],
        decreases needle.len() - i,
    {
        if text[at + i] != needle[i] {
            assert(text@.subrange(at as int, at + needle.len())[i as int] != needle@[i as int]);
            return false;
        }
        i += 1;
    }
    assert(text@.subrange(at as int, at + needle.len()) =~= needle@);
    true
}

/// Whether `text` begins with `prefix`.
pub fn has_prefix(text: &Vec<char>, prefix: &Vec<char>) -> (found: bool)
    ensures
        found == starts_with(text@, prefix@),
{
    let found = matches_at(text, 0, prefix);
    proof {
        if prefix.len() <= text.len() {
            assert(text@.take(prefix.len() as int) =~= text@.subrange(0, 0 + prefix.len()));
        }
    }
    found
}

/// Whether `needle` stands somewhere in `text`.
pub fn has_text(text: &Vec<char>, needle: &Vec<char>) -> (found: bool)
    ensures
        found == contains_text(text@, needle@),
{
    if needle.len() > text.len() {
        return false;
    }
    let last = text.len() - needle.len();
    let mut at: usize = 0;
    loop
        invariant
            at <= last,
            last == text.len() - needle.len(),
            forall|k: int| 0 <= k < at ==> !occurs_at(text@, needle@, k),
        decreases last - at,
    {
        if matches_at(text, at, needle) {
            return true;
        }
        if at == last {
            return false;
        }
        at += 1;
    }
}

} // verus!
