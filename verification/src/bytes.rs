use vstd::prelude::*;

verus! {

/// `pat` occurs in `hay` starting at `i`.
pub open spec fn occurs_at(hay: Seq<u8>, i: int, pat: Seq<u8>) -> bool {
    0 <= i && i + pat.len() <= hay.len() && hay.subrange(i, i + pat.len()) == pat
}

/// Whether `pat` occurs in `hay` starting at `i`.
pub fn matches_at(hay: &[u8], i: usize, pat: &[u8]) -> (r: bool)
    ensures
        r == occurs_at(hay@, i as int, pat@),
{
    if i > hay.len() || pat.len() > hay.len() - i {
        return false;
    }
    let mut k: usize = 0;
    while k < pat.len()
        invariant
            i + pat.len() <= hay.len(),
            k <= pat.len(),
            forall|j: int| 0 <= j < k ==> hay@[i + j] == pat@[j],
        decreases pat.len() - k,
    {
        if hay[i + k] != pat[k] {
            assert(hay@.subrange(i as int, i + pat.len())[k as int] != pat@[k as int]);
            return false;
        }
        k = k + 1;
    }
    assert(hay@.subrange(i as int, i + pat.len()) =~= pat@);
    true
}

} // verus!
