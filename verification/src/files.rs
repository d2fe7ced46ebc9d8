//! File-type gating for ingestion.
//!
//! Plain-text files with extensions `txt`, `md` or `markdown` (matched
//! without regard to ASCII case) are ingested; a file with no extension
//! is read as text when named directly, but a directory walk takes only
//! the listed extensions.

use vstd::prelude::*;

verus! {

/// Whether `a` matches `b` with ASCII case ignored, `b` being lowercase.
pub open spec fn ci_same(a: char, b: char) -> bool {
    a == b || ('A' <= a && a <= 'Z' && (a as u32) + 32 == (b as u32))
}

/// Whether the two strings match with ASCII case ignored on the first,
/// the second being lowercase.
pub open spec fn seq_eq_ci(a: Seq<char>, b: Seq<char>) -> bool {
    a.len() == b.len() && forall|i: int| 0 <= i < a.len() ==> ci_same(a[i], #[trigger] b[i])
}

/// The position of the last `/` before `i`, or `-1` if none.
pub open spec fn last_slash_before(s: Seq<char>, i: int) -> int
    decreases i,
{
    if i <= 0 || i > s.len() {
        -1
    } else if s[i - 1] == '/' {
        i - 1
    } else {
        last_slash_before(s, i - 1)
    }
}

/// The position of the last `.` before `i`, or `-1` if none.
pub open spec fn last_dot_before(s: Seq<char>, i: int) -> int
    decreases i,
{
    if i <= 0 || i > s.len() {
        -1
    } else if s[i - 1] == '.' {
        i - 1
    } else {
        last_dot_before(s, i - 1)
    }
}

/// Whether the path's final component carries an extension: a `.` after
/// the last `/` that is not the component's first character.
pub open spec fn spec_has_extension(path: Seq<char>) -> bool {
    last_dot_before(path, path.len() as int) > last_slash_before(path, path.len() as int) + 1
}

/// The extension: what follows the last `.`.
pub open spec fn spec_extension(path: Seq<char>) -> Seq<char> {
    path.subrange(last_dot_before(path, path.len() as int) + 1, path.len() as int)
}

/// Whether the path names a supported plain-text file: its extension is
/// `txt`, `md` or `markdown`, ASCII case ignored.
pub open spec fn spec_is_supported(path: Seq<char>) -> bool {
    spec_has_extension(path) && (seq_eq_ci(spec_extension(path), seq!['t', 'x', 't']) || seq_eq_ci(
        spec_extension(path),
        seq!['m', 'd'],
    ) || seq_eq_ci(spec_extension(path), seq!['m', 'a', 'r', 'k', 'd', 'o', 'w', 'n']))
}

/// Whether `a` matches `lower` with ASCII case ignored on `a`, `lower`
/// being lowercase.
fn str_eq_ci(a: &str, lower: &str) -> (r: bool)
    ensures
        r == seq_eq_ci(a@, lower@),
{
    let na = a.unicode_len();
    let nb = lower.unicode_len();
    if na != nb {
        return false;
    }
    let mut i: usize = 0;
    while i < na
        invariant
            i <= na,
            na == a@.len(),
            na == lower@.len(),
            forall|k: int| 0 <= k < i ==> ci_same(a@[k], #[trigger] lower@[k]),
        decreases na - i,
    {
        let ca = a.get_char(i);
        let cb = lower.get_char(i);
        let same = ca == cb || ('A' <= ca && ca <= 'Z' && (ca as u32) + 32 == (cb as u32));
        if !same {
            return false;
        }
        i = i + 1;
    }
    true
}

/// Find the path's last component start and its extension dot, if any:
/// returns one past the last `/` (or zero), and the position of the last
/// `.` with a flag saying whether any `.` occurs.
fn scan_path(path: &str) -> (r: (usize, usize, bool))
    ensures
        r.0 as int == last_slash_before(path@, path@.len() as int) + 1,
        r.0 <= path@.len(),
        r.2 ==> r.1 as int == last_dot_before(path@, path@.len() as int),
        r.2 ==> r.1 < path@.len(),
        !r.2 ==> last_dot_before(path@, path@.len() as int) == -1,
{
    let n = path.unicode_len();
    let mut comp_start: usize = 0;
    let mut last_dot: usize = 0;
    let mut has_dot = false;
    let mut i: usize = 0;
    while i < n
        invariant
            i <= n,
            n == path@.len(),
            comp_start <= i,
            comp_start as int == last_slash_before(path@, i as int) + 1,
            has_dot ==> last_dot < i,
            has_dot ==> last_dot as int == last_dot_before(path@, i as int),
            !has_dot ==> last_dot_before(path@, i as int) == -1,
        decreases n - i,
    {
        let c = path.get_char(i);
        if c == '/' {
            comp_start = i + 1;
        } else if c == '.' {
            last_dot = i;
            has_dot = true;
        }
        i = i + 1;
    }
    (comp_start, last_dot, has_dot)
}

/// Whether the path names a file the directory walk ingests: one whose
/// extension is `txt`, `md` or `markdown`, ASCII case ignored; a path
/// without an extension is not taken.
pub fn is_supported_file(path: &str) -> (r: bool)
    ensures
        r == spec_is_supported(path@),
{
    let (comp_start, last_dot, has_dot) = scan_path(path);
    if !has_dot || last_dot <= comp_start {
        return false;
    }
    let n = path.unicode_len();
    let ext = path.substring_char(last_dot + 1, n);
    proof {
        reveal_strlit("txt");
        reveal_strlit("md");
        reveal_strlit("markdown");
        assert("txt"@ =~= seq!['t', 'x', 't']);
        assert("md"@ =~= seq!['m', 'd']);
        assert("markdown"@ =~= seq!['m', 'a', 'r', 'k', 'd', 'o', 'w', 'n']);
    }
    str_eq_ci(ext, "txt") || str_eq_ci(ext, "md") || str_eq_ci(ext, "markdown")
}

/// Whether a directly named file may be read as text: it has a supported
/// extension, or no extension at all.
pub fn is_readable_file(path: &str) -> (r: bool)
    ensures
        r == (spec_is_supported(path@) || !spec_has_extension(path@)),
{
    let (comp_start, last_dot, has_dot) = scan_path(path);
    if !has_dot || last_dot <= comp_start {
        return true;
    }
    is_supported_file(path)
}

} // verus!
