//! Quoting of names for identifier position in a statement: the name is
//! wrapped in double quotes and every embedded double quote is doubled, so a
//! catalog-supplied name cannot alter the statement's structure.

use vstd::prelude::*;

verus! {

/// A name with every double-quote character doubled.
pub open spec fn escape_quotes(s: Seq<char>) -> Seq<char>
    decreases s.len(),
{
    if s.len() == 0 {
        Seq::empty()
    } else {
        escape_quotes(s.drop_last()) + (if s.last() == '"' {
            "\"\""@
        } else {
            seq![s.last()]
        })
    }
}

/// A name rendered for identifier position: escaped and wrapped in double
/// quotes.
pub open spec fn quoted_ident(s: Seq<char>) -> Seq<char> {
    "\""@ + escape_quotes(s) + "\""@
}

/// Renders a name for identifier position in a statement.
pub fn quote_ident(name: &str) -> (r: String)
    ensures
        r@ == quoted_ident(name@),
{
    let mut out = String::from_str("\"");
    let len = name.unicode_len();
    let mut i: usize = 0;
    while i < len
        invariant
            i <= len,
            len == name@.len(),
            out@ == "\""@ + escape_quotes(name@.subrange(0, i as int)),
        decreases len - i,
    {
        let c = name.get_char(i);
        if c == '"' {
            out.append("\"\"");
        } else {
            let piece = name.substring_char(i, i + 1);
            out.append(piece);
        }
        proof {
            let pre = name@.subrange(0, i as int);
            let ext = name@.subrange(0, i + 1 as int);
            assert(ext.drop_last() =~= pre);
            assert(ext.last() == name@[i as int]);
            if name@[i as int] != '"' {
                assert(name@.subrange(i as int, i + 1 as int) =~= seq![name@[i as int]]);
            }
            assert(out@ =~= "\""@ + escape_quotes(ext));
        }
        i = i + 1;
    }
    proof {
        assert(name@.subrange(0, len as int) =~= name@);
    }
    out.append("\"");
    proof {
        assert(out@ =~= quoted_ident(name@));
    }
    out
}

} // verus!
