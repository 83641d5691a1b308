//! Character-level helpers on strings.

use vstd::prelude::*;

verus! {

/// The characters of `s`, in order.
pub fn chars_of(s: &str) -> (out: Vec<char>)
    ensures
        out@ == s@,
{
    let mut out: Vec<char> = Vec::new();
    for c in it: s.chars()
        invariant
            out@ == it.seq().take(it.index() as int),
    {
        out.push(c);
    }
    out
}

/// Whether `prefix` is a prefix of `s`.
pub fn has_prefix(s: &str, prefix: &str) -> (r: bool)
    ensures
        r == prefix@.is_prefix_of(s@),
{
    let sc = chars_of(s);
    let pc = chars_of(prefix);
    if pc.len() > sc.len() {
        return false;
    }
    let mut i: usize = 0;
    while i < pc.len()
        invariant
            sc@ == s@,
            pc@ == prefix@,
            pc.len() <= sc.len(),
            i <= pc.len(),
            forall|j: int| 0 <= j < i ==> pc@[j] == sc@[j],
        decreases pc.len() - i,
    {
        if pc[i] != sc[i] {
            return false;
        }
        i = i + 1;
    }
    true
}

} // verus!
