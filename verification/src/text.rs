//! Strings as character sequences, and the test whether one text contains
//! another.

use vstd::prelude::*;

verus! {

/// `needle` stands in `haystack` starting at position `at`.
pub open spec fn occurs_at(needle: Seq<char>, haystack: Seq<char>, at: int) -> bool {
    &&& 0 <= at
    &&& at + needle.len() <= haystack.len()
    &&& haystack.subrange(at, at + needle.len()) == needle
}

/// `needle` stands somewhere in `haystack` as a contiguous run of characters.
pub open spec fn is_substring(needle: Seq<char>, haystack: Seq<char>) -> bool {
    exists|at: int| occurs_at(needle, haystack, at)
}

/// The character sequences of a run of strings, in the same order.
pub open spec fn texts(lines: Seq<String>) -> Seq<Seq<char>> {
    lines.map_values(|line: String| line@)
}

/// The character sequence of a string that may be absent.
pub open spec fn optional_text(line: Option<String>) -> Option<Seq<char>> {
    match line {
        Some(line) => Some(line@),
        None => None,
    }
}

/// The character sequences of a run of strings that may be absent.
pub open spec fn optional_texts(lines: Option<Vec<String>>) -> Option<Seq<Seq<char>>> {
    match lines {
        Some(lines) => Some(texts(lines@)),
        None => None,
    }
}

/// The characters of `s`, in order.
pub fn characters(s: &str) -> (out: Vec<char>)
    ensures
        out@ == s@,
{
    let mut out: Vec<char> = Vec::new();
    for c in it: s.chars()
        invariant
            out@ == it.seq().take(it.index() as int),
    {
        out.push(c);
    }
    out
}

/// Whether `needle` stands in `haystack` at position `at`.
///
/// It does not where it would reach beyond the end of `haystack`.
pub fn matches_at(needle: &Vec<char>, haystack: &Vec<char>, at: usize) -> (hit: bool)
    ensures
        hit == occurs_at(needle@, haystack@, at as int),
{
    if needle.len() > haystack.len() || at > haystack.len() - needle.len() {
        return false;
    }
    let mut k: usize = 0;
    while k < needle.len()
        invariant
            k <= needle.len(),
            at + needle.len() <= haystack.len(),
            forall|j: int| 0 <= j < k ==> haystack@[at + j] == needle@[j],
        decreases needle.len() - k,
    {
        if haystack[at + k] != needle[k] {
            proof {
                let window = haystack@.subrange(at as int, at + needle.len());
                assert(window[k as int] == haystack@[at + k]);
            }
            return false;
        }
        k += 1;
    }
    assert(haystack@.subrange(at as int, at + needle.len()) =~= needle@);
    true
}

/// Whether `needle` stands somewhere in `haystack`.
///
/// The empty text stands in every text.
pub fn contains_chars(haystack: &Vec<char>, needle: &Vec<char>) -> (found: bool)
    ensures
        found == is_substring(needle@, haystack@),
{
    if needle.len() > haystack.len() {
        return false;
    }
    let last: usize = haystack.len() - needle.len();
    let mut at: usize = 0;
    loop
        invariant
            last == haystack.len() - needle.len(),
            at <= last,
            forall|i: int| 0 <= i < at ==> !occurs_at(needle@, haystack@, i),
        decreases last - at,
    {
        if matches_at(needle, haystack, at) {
            return true;
        }
        if at == last {
            return false;
        }
        at += 1;
    }
}

/// Whether `needle` stands somewhere in `haystack`.
pub fn contains(haystack: &str, needle: &str) -> (found: bool)
    ensures
        found == is_substring(needle@, haystack@),
{
    let hay = characters(haystack);
    let pat = characters(needle);
    contains_chars(&hay, &pat)
}

/// A copy of `lines`, string by string.
pub fn copy_lines(lines: &Vec<String>) -> (out: Vec<String>)
    ensures
        out@ == lines@,
{
    let mut out: Vec<String> = Vec::new();
    let mut i: usize = 0;
    while i < lines.len()
        invariant
            i <= lines.len(),
            out@ == lines@.take(i as int),
        decreases lines.len() - i,
    {
        out.push(lines[i].clone());
        assert(lines@.take(i + 1) =~= lines@.take(i as int).push(lines@[i as int]));
        i += 1;
    }
    assert(lines@.take(lines.len() as int) =~= lines@);
    out
}

} // verus!
