//! Whether freshly generated bindings replace the published ones.

use vstd::prelude::*;

verus! {

/// Whether two buffers differ, in a byte or in their length.
pub fn differs(published: &Vec<u8>, fresh: &Vec<u8>) -> (r: bool)
    ensures
        r == (published@ != fresh@),
{
    if published.len() != fresh.len() {
        return true;
    }
    let mut i: usize = 0;
    while i < published.len()
        invariant
            i <= published.len(),
            published.len() == fresh.len(),
            forall|k: int| 0 <= k < i ==> published@[k] == fresh@[k],
        decreases published.len() - i,
    {
        if published[i] != fresh[i] {
            return true;
        }
        i += 1;
    }
    proof {
        assert(published@ =~= fresh@);
    }
    false
}

/// Whether `fresh` is to be published: nothing is published yet, or what is
/// published is not the same text.  Text that only got longer or shorter is
/// not the same.
pub fn needs_publishing(published: Option<&Vec<u8>>, fresh: &Vec<u8>) -> (r: bool)
    ensures
        r == (match published {
            Some(old) => old@ != fresh@,
            None => true,
        }),
{
    match published {
        Some(old) => differs(old, fresh),
        None => true,
    }
}

} // verus!
