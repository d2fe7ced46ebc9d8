//! Escaping for the CSV export format: inside a quoted CSV field, every
//! double quote is doubled and every newline becomes a space.

use vstd::prelude::*;

verus! {

/// One content character as it appears inside a quoted CSV field.
pub open spec fn csv_escaped_char(c: char) -> Seq<char> {
    if c == '"' {
        seq!['"', '"']
    } else if c == '\n' {
        seq![' ']
    } else {
        seq![c]
    }
}

/// A content string as it appears inside a quoted CSV field.
pub open spec fn spec_csv_escaped(s: Seq<char>) -> Seq<char>
    decreases s.len(),
{
    if s.len() == 0 {
        Seq::empty()
    } else {
        spec_csv_escaped(s.drop_last()) + csv_escaped_char(s.last())
    }
}

/// Escape a chunk's content for a quoted CSV field: double each embedded
/// double quote and replace each newline with a space.
pub fn csv_escape_content(s: &str) -> (r: String)
    ensures
        r@ == spec_csv_escaped(s@),
{
    let n = s.unicode_len();
    let mut out = String::new();
    let mut i: usize = 0;
    while i < n
        invariant
            i <= n,
            n == s@.len(),
            out@ == spec_csv_escaped(s@.take(i as int)),
        decreases n - i,
    {
        let c = s.get_char(i);
        if c == '"' {
            proof {
                reveal_strlit("\"\"");
            }
            out.append("\"\"");
            proof {
                assert("\"\""@ =~= seq!['"', '"']);
            }
        } else if c == '\n' {
            proof {
                reveal_strlit(" ");
            }
            out.append(" ");
            proof {
                assert(" "@ =~= seq![' ']);
            }
        } else {
            let one = s.substring_char(i, i + 1);
            out.append(one);
            proof {
                assert(one@ =~= seq![s@[i as int]]);
            }
        }
        proof {
            assert(s@.take(i + 1 as int).drop_last() =~= s@.take(i as int));
            assert(s@.take(i + 1 as int).last() == s@[i as int]);
            assert(out@ =~= spec_csv_escaped(s@.take(i + 1 as int)));
        }
        i = i + 1;
    }
    proof {
        assert(s@.take(n as int) =~= s@);
    }
    out
}

} // verus!
