//! The one text repair applied to submission metadata before it is parsed:
//! the files carry a stray colon after a space (` :`), which plain YAML does
//! not, so each such pair collapses to the space alone.

use vstd::prelude::*;
use vstd::string::StrSliceExecFns;

verus! {

/// `s` with every space-colon pair collapsed to the space, scanning left to
/// right without overlap.
pub open spec fn despaced(s: Seq<char>) -> Seq<char>
    decreases s.len(),
{
    if s.len() == 0 {
        Seq::empty()
    } else if s.len() >= 2 && s[0] == ' ' && s[1] == ':' {
        seq![' '] + despaced(s.skip(2))
    } else {
        seq![s[0]] + despaced(s.skip(1))
    }
}

/// Repairs metadata text: every ` :` becomes ` `.
pub fn fix_metadata_text(s: &str) -> (out: String)
    ensures
        out@ == despaced(s@),
{
    let n = s.unicode_len();
    let mut out = String::new();
    let mut i: usize = 0;
    proof {
        assert(s@.skip(0) =~= s@);
        assert(out@ + despaced(s@) =~= despaced(s@));
    }
    while i < n
        invariant
            n == s@.len(),
            i <= n,
            out@ + despaced(s@.skip(i as int)) == despaced(s@),
        decreases n - i,
    {
        let c = s.get_char(i);
        if c == ' ' && i + 1 < n && s.get_char(i + 1) == ':' {
            out.append(" ");
            proof {
                reveal_strlit(" ");
                let tail = s@.skip(i as int);
                assert(tail[0] == ' ');
                assert(tail[1] == ':');
                assert(tail.skip(2) =~= s@.skip(i + 2));
                assert(despaced(tail) == seq![' '] + despaced(s@.skip(i + 2)));
                assert(" "@ =~= seq![' ']);
                assert(out@ + despaced(s@.skip(i + 2)) =~= despaced(s@));
            }
            i = i + 2;
        } else {
            let piece = s.substring_char(i, i + 1);
            out.append(piece);
            proof {
                let tail = s@.skip(i as int);
                assert(tail[0] == s@[i as int]);
                if tail.len() >= 2 {
                    assert(tail[1] == s@[i + 1]);
                }
                assert(tail.skip(1) =~= s@.skip(i + 1));
                assert(despaced(tail) == seq![s@[i as int]] + despaced(s@.skip(i + 1)));
                assert(piece@ =~= seq![s@[i as int]]);
                assert(out@ + despaced(s@.skip(i + 1)) =~= despaced(s@));
            }
            i = i + 1;
        }
    }
    proof {
        assert(s@.skip(n as int) =~= Seq::<char>::empty());
        assert(out@ + Seq::<char>::empty() =~= out@);
    }
    out
}

} // verus!
