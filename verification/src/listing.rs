//! Rendering a directory listing as the caller receives it: one name per
//! line.

use vstd::prelude::*;

verus! {

/// The listing text for `names`: each name in order, each followed by one
/// newline.
pub open spec fn joined_lines(names: Seq<Seq<char>>) -> Seq<char>
    decreases names.len(),
{
    if names.len() == 0 {
        Seq::empty()
    } else {
        joined_lines(names.drop_last()) + names.last() + "\n"@
    }
}

/// Joins the names of a listing, one per line.
pub fn join_lines(names: &Vec<String>) -> (out: String)
    ensures
        out@ == joined_lines(names.deep_view()),
{
    let mut out = String::new();
    let mut i: usize = 0;
    while i < names.len()
        invariant
            i <= names@.len(),
            out@ == joined_lines(names.deep_view().take(i as int)),
        decreases names@.len() - i,
    {
        out.append(names[i].as_str());
        out.append("\n");
        proof {
            let pre = names.deep_view().take(i + 1);
            assert(pre.drop_last() =~= names.deep_view().take(i as int));
            assert(pre.last() == names@[i as int]@);
        }
        i = i + 1;
    }
    proof {
        assert(names.deep_view().take(names@.len() as int) =~= names.deep_view());
    }
    out
}

} // verus!
