//! Small verified helpers on strings and string lists.

use vstd::prelude::*;

use vstd::string::StrSliceExecFns;

verus! {

/// Compares two string slices character by character.
pub fn str_eq(a: &str, b: &str) -> (r: bool)
    ensures
        r == (a@ == b@),
{
    let an = a.unicode_len();
    let bn = b.unicode_len();
    if an != bn {
        return false;
    }
    let mut i: usize = 0;
    while i < an
        invariant
            an == a@.len(),
            bn == b@.len(),
            an == bn,
            i <= an,
            forall|j: int| 0 <= j < i ==> a@[j] == b@[j],
        decreases an - i,
    {
        if a.get_char(i) != b.get_char(i) {
            return false;
        }
        i += 1;
    }
    proof {
        assert(a@ =~= b@);
    }
    true
}

/// Whether some element of `v` equals the string `t`.
pub fn vec_contains_str(v: &Vec<String>, t: &str) -> (r: bool)
    ensures
        r == (exists|i: int| 0 <= i < v@.len() && v.deep_view()[i] == t@),
{
    let n = v.len();
    let mut i: usize = 0;
    while i < n
        invariant
            n == v@.len(),
            i <= n,
            forall|j: int| 0 <= j < i ==> v.deep_view()[j] != t@,
        decreases n - i,
    {
        if str_eq(v[i].as_str(), t) {
            proof {
                assert(v.deep_view()[i as int] == t@);
            }
            return true;
        }
        i += 1;
    }
    false
}

} // verus!
