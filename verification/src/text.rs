//! Character-level text utilities shared by the chunker: whitespace
//! classification, trimming, and blankness tests, each with an exact
//! specification over the string's character sequence.

use vstd::prelude::*;

verus! {

/// The characters with the Unicode `White_Space` property.
pub open spec fn spec_is_space(c: char) -> bool {
    c == ' ' || c == '\t' || c == '\n' || c == '\r' || c == '\u{000B}' || c == '\u{000C}'
        || c == '\u{0085}' || c == '\u{00A0}' || c == '\u{1680}' || (c >= '\u{2000}' && c
        <= '\u{200A}') || c == '\u{2028}' || c == '\u{2029}' || c == '\u{202F}' || c == '\u{205F}'
        || c == '\u{3000}'
}

/// The first position at or after `i` holding a non-space character,
/// or the length when only spaces remain.
pub open spec fn first_nonspace_from(s: Seq<char>, i: int) -> int
    decreases s.len() - i,
{
    if i < 0 || i >= s.len() {
        s.len() as int
    } else if !spec_is_space(s[i]) {
        i
    } else {
        first_nonspace_from(s, i + 1)
    }
}

/// One past the last position before `i` holding a non-space character,
/// or zero when only spaces precede.
pub open spec fn last_nonspace_to(s: Seq<char>, i: int) -> int
    decreases i,
{
    if i <= 0 || i > s.len() {
        0
    } else if !spec_is_space(s[i - 1]) {
        i
    } else {
        last_nonspace_to(s, i - 1)
    }
}

/// The string with its leading and trailing whitespace removed.
pub open spec fn spec_trim(s: Seq<char>) -> Seq<char> {
    let a = first_nonspace_from(s, 0);
    let b = last_nonspace_to(s, s.len() as int);
    if a < b {
        s.subrange(a, b)
    } else {
        Seq::empty()
    }
}

/// A string is blank when trimming leaves nothing: it is empty or all
/// whitespace.
pub open spec fn spec_is_blank(s: Seq<char>) -> bool {
    spec_trim(s).len() == 0
}

/// Whether one character has the Unicode `White_Space` property.
pub fn is_space(c: char) -> (r: bool)
    ensures
        r == spec_is_space(c),
{
    c == ' ' || c == '\t' || c == '\n' || c == '\r' || c == '\u{000B}' || c == '\u{000C}'
        || c == '\u{0085}' || c == '\u{00A0}' || c == '\u{1680}' || (c >= '\u{2000}' && c
        <= '\u{200A}') || c == '\u{2028}' || c == '\u{2029}' || c == '\u{202F}' || c == '\u{205F}'
        || c == '\u{3000}'
}

/// The index of the first non-space character, or the length if none.
fn scan_first_nonspace(s: &str) -> (a: usize)
    ensures
        a == first_nonspace_from(s@, 0),
        a <= s@.len(),
{
    let n = s.unicode_len();
    let mut i: usize = 0;
    while i < n
        invariant
            0 <= i <= n,
            n == s@.len(),
            first_nonspace_from(s@, 0) == first_nonspace_from(s@, i as int),
        decreases n - i,
    {
        let c = s.get_char(i);
        if !is_space(c) {
            return i;
        }
        i = i + 1;
    }
    i
}

/// One past the index of the last non-space character, or zero if none.
fn scan_last_nonspace(s: &str) -> (b: usize)
    ensures
        b == last_nonspace_to(s@, s@.len() as int),
        b <= s@.len(),
{
    let n = s.unicode_len();
    let mut i: usize = n;
    while i > 0
        invariant
            0 <= i <= n,
            n == s@.len(),
            last_nonspace_to(s@, n as int) == last_nonspace_to(s@, i as int),
        decreases i,
    {
        let c = s.get_char(i - 1);
        if !is_space(c) {
            return i;
        }
        i = i - 1;
    }
    i
}

/// A copy of the string with leading and trailing whitespace removed.
pub fn trim_str(s: &str) -> (r: String)
    ensures
        r@ == spec_trim(s@),
{
    let a = scan_first_nonspace(s);
    let b = scan_last_nonspace(s);
    if a < b {
        let piece = s.substring_char(a, b);
        piece.to_owned()
    } else {
        String::new()
    }
}

/// Whether the string is empty or all whitespace.
pub fn str_is_blank(s: &str) -> (r: bool)
    ensures
        r == spec_is_blank(s@),
{
    let a = scan_first_nonspace(s);
    let b = scan_last_nonspace(s);
    a >= b
}

} // verus!
