use vstd::prelude::*;

verus! {

/// A sequence is a prefix of itself.
pub proof fn lemma_prefix_refl<T>(s: Seq<T>)
    ensures
        s.is_prefix_of(s),
{
    assert(s.subrange(0, s.len() as int) =~= s);
}

/// Appending one more element keeps every earlier one where it was.
pub proof fn lemma_prefix_push<T>(s: Seq<T>, e: T)
    ensures
        s.is_prefix_of(s.push(e)),
{
    assert(s.push(e).subrange(0, s.len() as int) =~= s);
}

/// Being an unbroken initial run is transitive.
pub proof fn lemma_prefix_trans<T>(a: Seq<T>, b: Seq<T>, c: Seq<T>)
    requires
        a.is_prefix_of(b),
        b.is_prefix_of(c),
    ensures
        a.is_prefix_of(c),
{
    assert(c.subrange(0, a.len() as int) =~= a) by {
        assert forall|i: int| 0 <= i < a.len() implies c[i] == a[i] by {
            assert(b[i] == c.subrange(0, b.len() as int)[i]);
            assert(a[i] == b.subrange(0, a.len() as int)[i]);
        }
    }
}

/// A prefix agrees with the longer sequence on every index it covers.
pub proof fn lemma_prefix_index<T>(a: Seq<T>, b: Seq<T>, i: int)
    requires
        a.is_prefix_of(b),
        0 <= i < a.len(),
    ensures
        a[i] == b[i],
{
    assert(a[i] == b.subrange(0, a.len() as int)[i]);
}

} // verus!
