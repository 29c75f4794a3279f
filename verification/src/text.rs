//! Character sequences: blank characters, trimming, searching and splitting.
//!
//! The specifications speak of `Seq<char>`; the executable functions work on
//! slices of characters and are proved against them.

use vstd::prelude::*;
use vstd::slice::slice_subrange;

verus! {

/// The characters of an optional string.
pub open spec fn option_text(value: Option<String>) -> Option<Seq<char>> {
    match value {
        Some(text) => Some(text@),
        None => None,
    }
}

/// The characters of a text or of an error message.
pub open spec fn result_text(value: Result<String, String>) -> Result<Seq<char>, Seq<char>> {
    match value {
        Ok(text) => Ok(text@),
        Err(message) => Err(message@),
    }
}

/// An outcome, with the characters of its error message.
pub open spec fn outcome_text(outcome: Result<(), String>) -> Result<(), Seq<char>> {
    match outcome {
        Ok(_) => Ok(()),
        Err(message) => Err(message@),
    }
}

/// Whether `c` carries the Unicode property `White_Space`.
pub open spec fn is_whitespace(c: char) -> bool {
    let u = c as u32;
    ||| 0x09 <= u <= 0x0D
    ||| u == 0x20
    ||| u == 0x85
    ||| u == 0xA0
    ||| u == 0x1680
    ||| 0x2000 <= u <= 0x200A
    ||| u == 0x2028
    ||| u == 0x2029
    ||| u == 0x202F
    ||| u == 0x205F
    ||| u == 0x3000
}

/// Whether every character of `s` is blank; the empty sequence is.
pub open spec fn is_blank(s: Seq<char>) -> bool {
    forall|i: int| 0 <= i < s.len() ==> is_whitespace(#[trigger] s[i])
}

/// `s` without its leading blank characters.
pub open spec fn trim_start(s: Seq<char>) -> Seq<char>
    decreases s.len(),
{
    if s.len() > 0 && is_whitespace(s[0]) {
        trim_start(s.drop_first())
    } else {
        s
    }
}

/// `s` without its trailing blank characters.
pub open spec fn trim_end(s: Seq<char>) -> Seq<char>
    decreases s.len(),
{
    if s.len() > 0 && is_whitespace(s.last()) {
        trim_end(s.drop_last())
    } else {
        s
    }
}

/// `s` without its leading and trailing blank characters.
pub open spec fn trim(s: Seq<char>) -> Seq<char> {
    trim_end(trim_start(s))
}

/// Position of the first `sep` in `s`; `s.len()` when `s` holds none.
pub open spec fn find_char(s: Seq<char>, sep: char) -> int
    decreases s.len(),
{
    if s.len() == 0 || s[0] == sep {
        0
    } else {
        1 + find_char(s.drop_first(), sep)
    }
}

/// The fields of `s` between occurrences of `sep`: one more than `s` holds
/// separators, empty fields included.
pub open spec fn split_on(s: Seq<char>, sep: char) -> Seq<Seq<char>>
    decreases s.len(),
{
    let at = find_char(s, sep);
    if 0 <= at < s.len() {
        seq![s.take(at)] + split_on(s.skip(at + 1), sep)
    } else {
        seq![s]
    }
}

/// Whether `needle` stands in `s` at position `at`.
pub open spec fn occurs_at(s: Seq<char>, needle: Seq<char>, at: int) -> bool {
    &&& 0 <= at
    &&& at + needle.len() <= s.len()
    &&& s.subrange(at, at + needle.len()) == needle
}

/// Whether `needle` stands somewhere in `s`.
pub open spec fn contains_text(s: Seq<char>, needle: Seq<char>) -> bool {
    exists|at: int| occurs_at(s, needle, at)
}

/// `find_char` gives `at` if `at` is within `s`, no separator stands before
/// it, and one stands at it unless it is the end of `s`.
pub proof fn lemma_find_char_unique(s: Seq<char>, sep: char, at: int)
    requires
        0 <= at <= s.len(),
        at < s.len() ==> s[at] == sep,
        forall|j: int| 0 <= j < at ==> s[j] != sep,
    ensures
        find_char(s, sep) == at,
    decreases s.len(),
{
    if s.len() == 0 || s[0] == sep {
    } else {
        let rest = s.drop_first();
        assert forall|j: int| 0 <= j < at - 1 implies rest[j] != sep by {
            assert(rest[j] == s[j + 1]);
        }
        lemma_find_char_unique(rest, sep, at - 1);
    }
}

/// Trimming yields nothing exactly when every character is blank.
pub proof fn lemma_trim_empty_iff_blank(s: Seq<char>)
    ensures
        trim(s).len() == 0 <==> is_blank(s),
{
    lemma_trim_start_blank(s);
    lemma_trim_end_keeps_edge(trim_start(s));
}

/// A sequence that neither starts nor ends with a blank character is its
/// own trimmed form.
pub proof fn lemma_trim_fixed(s: Seq<char>)
    requires
        s.len() > 0 ==> !is_whitespace(s[0]) && !is_whitespace(s.last()),
    ensures
        trim(s) == s,
{
}

/// `trim_start` is empty exactly for blank input, and otherwise starts with
/// a character that is not blank.
proof fn lemma_trim_start_blank(s: Seq<char>)
    ensures
        trim_start(s).len() == 0 <==> is_blank(s),
        trim_start(s).len() > 0 ==> !is_whitespace(trim_start(s)[0]),
    decreases s.len(),
{
    if s.len() > 0 && is_whitespace(s[0]) {
        let rest = s.drop_first();
        lemma_trim_start_blank(rest);
        if is_blank(rest) {
            assert forall|i: int| 0 <= i < s.len() implies is_whitespace(#[trigger] s[i]) by {
                if i > 0 {
                    assert(s[i] == rest[i - 1]);
                }
            }
        }
        if is_blank(s) {
            assert forall|i: int| 0 <= i < rest.len() implies is_whitespace(#[trigger] rest[i]) by {
                assert(rest[i] == s[i + 1]);
            }
        }
    } else if s.len() > 0 {
        assert(!is_whitespace(s[0]));
    }
}

/// `trim_end` of a sequence that starts with a character that is not blank
/// is not empty.
proof fn lemma_trim_end_keeps_edge(s: Seq<char>)
    ensures
        s.len() > 0 && !is_whitespace(s[0]) ==> trim_end(s).len() > 0,
        s.len() == 0 ==> trim_end(s).len() == 0,
    decreases s.len(),
{
    if s.len() > 0 && is_whitespace(s.last()) {
        let rest = s.drop_last();
        lemma_trim_end_keeps_edge(rest);
        if !is_whitespace(s[0]) {
            assert(s.len() > 1);
            assert(rest[0] == s[0]);
        }
    }
}

/// Decides `is_whitespace`.
pub fn char_is_whitespace(c: char) -> (blank: bool)
    ensures
        blank == is_whitespace(c),
{
    let u: u32 = c as u32;
    (0x09 <= u && u <= 0x0D) || u == 0x20 || u == 0x85 || u == 0xA0 || u == 0x1680 || (0x2000 <= u
        && u <= 0x200A) || u == 0x2028 || u == 0x2029 || u == 0x202F || u == 0x205F || u == 0x3000
}

/// The characters of `s`, in order.
pub fn chars_of(s: &str) -> (chars: Vec<char>)
    ensures
        chars@ == s@,
{
    let mut chars: Vec<char> = Vec::new();
    for c in it: s.chars()
        invariant
            it.seq() == s@,
            chars@ == s@.take(it.index() as int),
    {
        chars.push(c);
    }
    chars
}

/// The bounds of the trimmed part of `s`.
pub fn trim_bounds(s: &[char]) -> (bounds: (usize, usize))
    ensures
        bounds.0 <= bounds.1 <= s.len(),
        s@.subrange(bounds.0 as int, bounds.1 as int) == trim(s@),
{
    let n: usize = s.len();
    let mut a: usize = 0;
    proof {
        assert(s@.subrange(0, n as int) =~= s@);
    }
    while a < n && char_is_whitespace(s[a])
        invariant
            a <= n == s.len(),
            trim_start(s@.subrange(a as int, n as int)) == trim_start(s@),
        decreases n - a,
    {
        proof {
            assert(s@.subrange(a as int, n as int).drop_first() =~= s@.subrange(
                a + 1,
                n as int,
            ));
        }
        a += 1;
    }
    let mut b: usize = n;
    while a < b && char_is_whitespace(s[b - 1])
        invariant
            a <= b <= n == s.len(),
            trim_end(s@.subrange(a as int, b as int)) == trim(s@),
        decreases b - a,
    {
        proof {
            assert(s@.subrange(a as int, b as int).drop_last() =~= s@.subrange(
                a as int,
                b - 1,
            ));
        }
        b -= 1;
    }
    (a, b)
}

/// `s` without its leading and trailing blank characters.
pub fn trim_str<'a>(s: &'a str) -> (trimmed: &'a str)
    ensures
        trimmed@ == trim(s@),
{
    let chars = chars_of(s);
    let (a, b) = trim_bounds(chars.as_slice());
    s.substring_char(a, b)
}

/// Position of the first `sep` in `s`; `s.len()` when `s` holds none.
pub fn find_char_in(s: &[char], sep: char) -> (at: usize)
    ensures
        at == find_char(s@, sep),
        at <= s.len(),
{
    let mut i: usize = 0;
    while i < s.len() && s[i] != sep
        invariant
            i <= s.len(),
            forall|j: int| 0 <= j < i ==> s@[j] != sep,
        decreases s.len() - i,
    {
        i += 1;
    }
    proof {
        lemma_find_char_unique(s@, sep, i as int);
    }
    i
}

/// The bounds of field `n` of `s` between occurrences of `sep`, counted
/// from 0; `None` when `s` has no such field.
pub fn field_bounds(s: &[char], sep: char, n: usize) -> (found: Option<(usize, usize)>)
    ensures
        found is Some <==> n < split_on(s@, sep).len(),
        found matches Some((a, b)) ==> a <= b <= s.len() && s@.subrange(a as int, b as int)
            == split_on(s@, sep)[n as int],
{
    let len: usize = s.len();
    let mut start: usize = 0;
    let mut k: usize = 0;
    proof {
        assert(s@.skip(0) =~= s@);
    }
    loop
        invariant
            start <= len == s.len(),
            k <= n,
            split_on(s@, sep).len() == k + split_on(s@.skip(start as int), sep).len(),
            n < split_on(s@, sep).len() ==> split_on(s@, sep)[n as int] == split_on(
                s@.skip(start as int),
                sep,
            )[n - k],
        decreases len - start,
    {
        let rest = slice_subrange(s, start, len);
        let width: usize = find_char_in(rest, sep);
        let end: usize = start + width;
        proof {
            let tail = s@.skip(start as int);
            assert(rest@ == tail);
            assert(tail.take(width as int) =~= s@.subrange(start as int, end as int));
            if width < tail.len() {
                assert(tail.skip(width + 1) =~= s@.skip(end + 1));
            }
        }
        if k == n {
            return Some((start, end));
        }
        if end >= len {
            return None;
        }
        start = end + 1;
        k += 1;
    }
}

/// Whether `needle` stands in `s` at position `at`.
pub fn occurs_in_at(s: &[char], needle: &[char], at: usize) -> (found: bool)
    ensures
        found == occurs_at(s@, needle@, at as int),
{
    let m: usize = needle.len();
    if at > s.len() || m > s.len() - at {
        return false;
    }
    let mut k: usize = 0;
    while k < m
        invariant
            k <= m == needle.len(),
            at + m <= s.len(),
            forall|t: int| 0 <= t < k ==> s@[at + t] == needle@[t],
        decreases m - k,
    {
        if s[at + k] != needle[k] {
            proof {
                assert(s@.subrange(at as int, at + m)[k as int] == s@[at + k]);
            }
            return false;
        }
        k += 1;
    }
    proof {
        assert(s@.subrange(at as int, at + m) =~= needle@);
    }
    true
}

/// Whether `needle` stands somewhere in `s`.
pub fn contains_in(s: &[char], needle: &[char]) -> (found: bool)
    ensures
        found == contains_text(s@, needle@),
{
    let n: usize = s.len();
    let m: usize = needle.len();
    if m > n {
        return false;
    }
    let last: usize = n - m;
    let mut at: usize = 0;
    loop
        invariant
            at <= last == n - m,
            n == s.len(),
            m == needle.len(),
            forall|j: int| 0 <= j < at ==> !occurs_at(s@, needle@, j),
        decreases last - at,
    {
        if occurs_in_at(s, needle, at) {
            return true;
        }
        if at == last {
            return false;
        }
        at += 1;
    }
}

} // verus!
