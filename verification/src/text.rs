//! The first line of a text and the interpreter marker `#!`.
//!
//! A text is modelled as its sequence of characters. Its first line runs up to
//! and including the first newline, or to the end where there is no newline.

use vstd::prelude::*;
use vstd::std_specs::iter::IteratorSpec;
use vstd::string::*;

verus! {

/// Where the first line of `s` ends when the search starts at `from`: just
/// behind the first newline at or after `from`, or at the end of `s`.
pub open spec fn line_end_from(s: Seq<char>, from: int) -> int
    decreases s.len() - from,
{
    if from < 0 || from >= s.len() {
        s.len() as int
    } else if s[from] == '\n' {
        from + 1
    } else {
        line_end_from(s, from + 1)
    }
}

/// The length of the first line of `s`, its newline included.
pub open spec fn line_end(s: Seq<char>) -> int {
    line_end_from(s, 0)
}

/// `n` cuts `s` behind its first line: no newline stands before the last
/// character of the cut, and the cut ends in a newline unless `s` ran out.
pub open spec fn cuts_first_line(s: Seq<char>, n: int) -> bool {
    &&& 0 <= n <= s.len()
    &&& forall|i: int| 0 <= i < n - 1 ==> s[i] != '\n'
    &&& (n > 0 && s[n - 1] == '\n') || n == s.len()
}

/// The first line of `s`, with its newline where it has one.
pub open spec fn first_line(s: Seq<char>) -> Seq<char> {
    s.subrange(0, line_end(s))
}

/// What follows the first line of `s`.
pub open spec fn after_first_line(s: Seq<char>) -> Seq<char> {
    s.subrange(line_end(s), s.len() as int)
}

/// Whether `s` begins with the two characters `#!`.
pub open spec fn has_marker(s: Seq<char>) -> bool {
    s.len() >= 2 && s[0] == '#' && s[1] == '!'
}

/// The interpreter line of `s`: its first line, if that begins with `#!`.
pub open spec fn shebang_of(s: Seq<char>) -> Option<Seq<char>> {
    if has_marker(first_line(s)) {
        Some(first_line(s))
    } else {
        None
    }
}

/// The body of `s`: what follows the interpreter line where there is one,
/// and otherwise the first line put back before the rest.
pub open spec fn body_of(s: Seq<char>) -> Seq<char> {
    if has_marker(first_line(s)) {
        after_first_line(s)
    } else {
        first_line(s) + after_first_line(s)
    }
}

/// From any starting point not behind a newline-free stretch, the search ends
/// at the one cut that `cuts_first_line` describes.
pub proof fn lemma_line_end_from(s: Seq<char>, from: int)
    requires
        0 <= from <= s.len(),
        forall|i: int| 0 <= i < from ==> s[i] != '\n',
    ensures
        cuts_first_line(s, line_end_from(s, from)),
        from <= line_end_from(s, from),
        from < s.len() ==> from < line_end_from(s, from),
    decreases s.len() - from,
{
    if from < s.len() && s[from] != '\n' {
        lemma_line_end_from(s, from + 1);
    }
}

/// `line_end` is the only cut behind the first line.
pub proof fn lemma_line_end_unique(s: Seq<char>, n: int)
    requires
        cuts_first_line(s, n),
    ensures
        n == line_end(s),
{
    lemma_line_end_from(s, 0);
    let m = line_end(s);
    if n < m {
        assert(s[n - 1] == '\n' || n == s.len());
    } else if m < n {
        assert(s[m - 1] == '\n' || m == s.len());
    }
}

/// The two parts that the first line divides a text into make up the text.
pub proof fn lemma_parts_make_whole(s: Seq<char>)
    ensures
        first_line(s) + after_first_line(s) == s,
{
    lemma_line_end_from(s, 0);
    assert(first_line(s) + after_first_line(s) =~= s);
}

/// The first line begins with `#!` exactly when the whole text does.
pub proof fn lemma_marker_on_first_line(s: Seq<char>)
    ensures
        has_marker(first_line(s)) == has_marker(s),
{
    lemma_line_end_from(s, 0);
    let n = line_end(s);
    if has_marker(s) {
        assert(n >= 2) by {
            if n < 2 {
                assert(s[n - 1] == '\n');
            }
        }
    }
}

/// Finds the end of the first line of `text`, counted in characters.
pub fn first_line_len(text: &str) -> (n: usize)
    ensures
        n == line_end(text@),
{
    broadcast use {axiom_spec_iter, next_postcondition};

    let len: usize = text.unicode_len();
    let mut it = text.chars();
    let mut n: usize = 0;
    loop
        invariant
            len == text@.len(),
            n <= len,
            it.obeys_prophetic_iter_laws(),
            it.remaining() == text@.skip(n as int),
            line_end_from(text@, n as int) == line_end(text@),
        decreases len - n,
    {
        match it.next() {
            None => {
                return n;
            },
            Some(c) => {
                n = n + 1;
                if c == '\n' {
                    return n;
                }
            },
        }
    }
}

/// Divides `text` behind its first line.
pub fn split_first_line(text: &str) -> (parts: (&str, &str))
    ensures
        parts.0@ == first_line(text@),
        parts.1@ == after_first_line(text@),
{
    let len: usize = text.unicode_len();
    let n: usize = first_line_len(text);
    proof {
        lemma_line_end_from(text@, 0);
    }
    (text.substring_char(0, n), text.substring_char(n, len))
}

/// Tells whether `text` begins with `#!`.
pub fn starts_with_marker(text: &str) -> (r: bool)
    ensures
        r == has_marker(text@),
{
    broadcast use {axiom_spec_iter, next_postcondition};

    let mut it = text.chars();
    match it.next() {
        Some('#') => match it.next() {
            Some('!') => true,
            _ => false,
        },
        _ => false,
    }
}

} // verus!
