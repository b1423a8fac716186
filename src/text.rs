//! Byte strings as stored, and stripping the NUL bytes that the store's text
//! encoding refuses.
use vstd::prelude::*;

verus! {

/// `s` with every NUL byte removed, the other bytes kept in order.
pub open spec fn without_nul(s: Seq<u8>) -> Seq<u8>
    decreases s.len(),
{
    if s.len() == 0 {
        s
    } else if s.last() == 0u8 {
        without_nul(s.drop_last())
    } else {
        without_nul(s.drop_last()).push(s.last())
    }
}

/// A byte string with no NUL byte is left as it is.
pub proof fn lemma_without_nul_identity(s: Seq<u8>)
    requires
        forall|i: int| 0 <= i < s.len() ==> s[i] != 0u8,
    ensures
        without_nul(s) == s,
    decreases s.len(),
{
    if s.len() > 0 {
        lemma_without_nul_identity(s.drop_last());
        assert(s.drop_last().push(s.last()) =~= s);
    }
}

/// No NUL byte is left after stripping.
pub proof fn lemma_without_nul_has_no_nul(s: Seq<u8>)
    ensures
        forall|i: int| 0 <= i < without_nul(s).len() ==> without_nul(s)[i] != 0u8,
    decreases s.len(),
{
    if s.len() > 0 {
        lemma_without_nul_has_no_nul(s.drop_last());
        let r = without_nul(s.drop_last());
        if s.last() != 0u8 {
            assert forall|i: int| 0 <= i < r.push(s.last()).len() implies r.push(s.last())[i]
                != 0u8 by {
                if i < r.len() {
                    assert(r.push(s.last())[i] == r[i]);
                }
            }
        }
    }
}

/// `v` with its NUL bytes removed.
pub fn strip_nul_bytes(v: &Vec<u8>) -> (r: Vec<u8>)
    ensures
        r@ == without_nul(v@),
{
    let mut r: Vec<u8> = Vec::new();
    let mut i: usize = 0;
    while i < v.len()
        invariant
            i <= v@.len(),
            r@ == without_nul(v@.subrange(0, i as int)),
        decreases v@.len() - i,
    {
        assert(v@.subrange(0, i as int + 1).drop_last() =~= v@.subrange(0, i as int));
        if v[i] != 0u8 {
            r.push(v[i]);
        }
        i = i + 1;
    }
    assert(v@.subrange(0, v@.len() as int) =~= v@);
    r
}

} // verus!
