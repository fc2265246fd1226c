//! The file test that discovery applies while walking a submission
//! directory: which entries count as a server entry point.

use vstd::prelude::*;
use vstd::string::StrSliceExecFns;
use crate::launch::{ends_with, str_ends_with};

verus! {

/// The characters at `i` spell `server`, either case per letter.
pub open spec fn server_word_at(s: Seq<char>, i: int) -> bool {
    &&& (s[i] == 's' || s[i] == 'S')
    &&& (s[i + 1] == 'e' || s[i + 1] == 'E')
    &&& (s[i + 2] == 'r' || s[i + 2] == 'R')
    &&& (s[i + 3] == 'v' || s[i + 3] == 'V')
    &&& (s[i + 4] == 'e' || s[i + 4] == 'E')
    &&& (s[i + 5] == 'r' || s[i + 5] == 'R')
}

/// The word `server` occurs somewhere in `s`, in any mix of letter cases.
pub open spec fn names_server(s: Seq<char>) -> bool {
    exists|i: int| 0 <= i && i + 6 <= s.len() && server_word_at(s, i)
}

/// Whether a letter of `name` starts the word `server` at `i`.
fn server_word_check(name: &str, i: usize) -> (r: bool)
    requires
        i + 6 <= name@.len(),
        name@.len() <= usize::MAX,
    ensures
        r == server_word_at(name@, i as int),
{
    let c0 = name.get_char(i);
    let c1 = name.get_char(i + 1);
    let c2 = name.get_char(i + 2);
    let c3 = name.get_char(i + 3);
    let c4 = name.get_char(i + 4);
    let c5 = name.get_char(i + 5);
    (c0 == 's' || c0 == 'S') && (c1 == 'e' || c1 == 'E') && (c2 == 'r' || c2 == 'R') && (c3 == 'v'
        || c3 == 'V') && (c4 == 'e' || c4 == 'E') && (c5 == 'r' || c5 == 'R')
}

/// Whether `name` holds the word `server`, in any letter case.
pub fn contains_server(name: &str) -> (r: bool)
    ensures
        r == names_server(name@),
{
    let n = name.unicode_len();
    if n < 6 {
        return false;
    }
    let mut i: usize = 0;
    while i <= n - 6
        invariant
            6 <= n,
            n == name@.len(),
            i <= n - 5,
            forall|j: int| 0 <= j < i ==> !server_word_at(name@, j),
        decreases n - i,
    {
        if server_word_check(name, i) {
            return true;
        }
        i = i + 1;
    }
    false
}

/// Discovery's test at the top of a submission directory: a Python or
/// JavaScript file whose name holds the word `server`.
pub open spec fn is_server_entry_top(name: Seq<char>) -> bool {
    (ends_with(name, ".py"@) || ends_with(name, ".js"@)) && names_server(name)
}

/// Discovery's test one directory level down: any Python file, or a
/// JavaScript file whose name holds the word `server`.
pub open spec fn is_server_entry_nested(name: Seq<char>) -> bool {
    ends_with(name, ".py"@) || (ends_with(name, ".js"@) && names_server(name))
}

/// Applies discovery's top-level file test.
pub fn server_entry_top(name: &str) -> (r: bool)
    ensures
        r == is_server_entry_top(name@),
{
    (str_ends_with(name, ".py") || str_ends_with(name, ".js")) && contains_server(name)
}

/// Applies discovery's nested file test.
pub fn server_entry_nested(name: &str) -> (r: bool)
    ensures
        r == is_server_entry_nested(name@),
{
    str_ends_with(name, ".py") || (str_ends_with(name, ".js") && contains_server(name))
}

} // verus!
