//! The shared retention rule: keep only the `n` most recent entries of a
//! sequence, dropping the oldest from the head, preserving relative order.

use vstd::prelude::*;

verus! {

/// The last `n` elements of `s`, in order; all of `s` if it is no longer
/// than `n`.
pub open spec fn spec_keep_last<T>(s: Seq<T>, n: int) -> Seq<T> {
    if s.len() <= n {
        s
    } else {
        s.subrange(s.len() - n, s.len() as int)
    }
}

/// The sequence a stored document decodes to: its entries, or the empty
/// sequence when the document is absent or malformed (`None`).
pub open spec fn doc_seq<T>(doc: Option<Vec<T>>) -> Seq<T> {
    match doc {
        Some(v) => v@,
        None => Seq::empty(),
    }
}

/// Unwraps a decoded document, reading absence as the empty collection.
pub fn vec_of_doc<T>(doc: Option<Vec<T>>) -> (r: Vec<T>)
    ensures
        r@ == doc_seq(doc),
{
    match doc {
        Some(v) => v,
        None => Vec::new(),
    }
}

/// Truncates `v` from the head until at most `n` elements remain, so that
/// exactly the `n` most recent elements survive in their original order.
pub fn keep_last<T>(v: &mut Vec<T>, n: usize)
    ensures
        final(v)@ == spec_keep_last(old(v)@, n as int),
        final(v)@.len() <= n,
{
    while v.len() > n
        invariant
            spec_keep_last(v@, n as int) == spec_keep_last(old(v)@, n as int),
        decreases v@.len(),
    {
        let ghost before = v@;
        v.remove(0);
        proof {
            assert(v@ =~= before.subrange(1, before.len() as int));
            if v@.len() > n {
                assert(spec_keep_last(v@, n as int) =~= spec_keep_last(
                    before,
                    n as int,
                ));
            } else {
                assert(v@ =~= spec_keep_last(before, n as int));
            }
        }
    }
}

} // verus!
