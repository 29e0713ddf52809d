//! A small fact about append-only histories, shared by every component
//! that reasons over a log of externally visible events.

use vstd::prelude::*;

verus! {

/// One more event keeps the history's past: everything recorded before a
/// push stays in place, and the push is the new last event.
pub proof fn lemma_push_keeps_prefix<T>(s: Seq<T>, base: Seq<T>, x: T)
    requires
        base.len() <= s.len(),
        s.subrange(0, base.len() as int) == base,
    ensures
        s.push(x).subrange(0, base.len() as int) == base,
        forall|i: int| 0 <= i < s.len() ==> s.push(x)[i] == s[i],
        s.push(x).last() == x,
{
    assert forall|i: int| 0 <= i < s.len() implies s.push(x)[i] == s[i] by {}
    assert forall|i: int|
        0 <= i < base.len() implies s.push(x).subrange(0, base.len() as int)[i] == base[i] by {
        assert(s.subrange(0, base.len() as int)[i] == s[i]);
        assert(s.push(x)[i] == s[i]);
    }
    assert(s.push(x).subrange(0, base.len() as int) =~= base);
}

/// A history extension agrees with its past pointwise.
pub proof fn lemma_prefix_points<T>(base: Seq<T>, s: Seq<T>)
    requires
        base.len() <= s.len(),
        s.subrange(0, base.len() as int) == base,
    ensures
        forall|i: int| 0 <= i < base.len() ==> s[i] == base[i],
{
    assert forall|i: int| 0 <= i < base.len() implies s[i] == base[i] by {
        assert(s.subrange(0, base.len() as int)[i] == s[i]);
    }
}

/// Extending an extension still preserves the oldest past.
pub proof fn lemma_prefix_trans<T>(a: Seq<T>, b: Seq<T>, c: Seq<T>)
    requires
        a.len() <= b.len() <= c.len(),
        b.subrange(0, a.len() as int) == a,
        c.subrange(0, b.len() as int) == b,
    ensures
        c.subrange(0, a.len() as int) == a,
        forall|i: int| 0 <= i < a.len() ==> c[i] == a[i],
{
    lemma_prefix_points(b, c);
    lemma_prefix_points(a, b);
    assert forall|i: int| 0 <= i < a.len() implies c.subrange(0, a.len() as int)[i] == a[i] by {
        assert(c.subrange(0, a.len() as int)[i] == c[i]);
    }
    assert(c.subrange(0, a.len() as int) =~= a);
}

} // verus!
