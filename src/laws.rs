use vstd::prelude::*;

verus! {

/// The sequence `s` extended by the elements of `vs`, one `push` at a time.
pub open spec fn after_appends<T>(s: Seq<T>, vs: Seq<T>) -> Seq<T>
    decreases vs.len(),
{
    if vs.len() == 0 {
        s
    } else {
        after_appends(s, vs.drop_last()).push(vs.last())
    }
}

proof fn lemma_after_appends_is_concat<T>(s: Seq<T>, vs: Seq<T>)
    ensures
        after_appends(s, vs) == s + vs,
    decreases vs.len(),
{
    if vs.len() == 0 {
        assert(s + vs =~= s);
    } else {
        lemma_after_appends_is_concat(s, vs.drop_last());
        assert(s + vs =~= (s + vs.drop_last()).push(vs.last()));
    }
}

/// Pushing never disturbs a prefix: whatever is pushed, the first `end`
/// elements of a sequence, for any `end` up to its length, stay as they were.
pub proof fn lemma_window_stable<T>(s: Seq<T>, vs: Seq<T>, end: nat)
    requires
        end <= s.len(),
    ensures
        after_appends(s, vs).subrange(0, end as int) == s.subrange(0, end as int),
{
    lemma_after_appends_is_concat(s, vs);
    assert((s + vs).subrange(0, end as int) =~= s.subrange(0, end as int));
}

/// Pushing only lengthens a sequence: a bound on its old length is a bound
/// below its new length, which grows by exactly the number of elements
/// pushed.
pub proof fn lemma_length_monotone<T>(s: Seq<T>, vs: Seq<T>, end: nat)
    requires
        end <= s.len(),
    ensures
        end <= after_appends(s, vs).len(),
        after_appends(s, vs).len() == s.len() + vs.len(),
{
    lemma_after_appends_is_concat(s, vs);
}

/// In-place writes keep the length: any number of them leaves a sequence
/// exactly as long as it was.
pub proof fn lemma_length_stable_without_appends<T>(s: Seq<T>, writes: Seq<(nat, T)>)
    ensures
        after_writes(s, writes).len() == s.len(),
    decreases writes.len(),
{
    if writes.len() > 0 {
        lemma_length_stable_without_appends(s, writes.drop_last());
    }
}

/// The sequence `s` after the in-place writes `writes`, each an index and a
/// value, are applied in order; a write past the end changes nothing.
pub open spec fn after_writes<T>(s: Seq<T>, writes: Seq<(nat, T)>) -> Seq<T>
    decreases writes.len(),
{
    if writes.len() == 0 {
        s
    } else {
        let prev = after_writes(s, writes.drop_last());
        let (i, v) = writes.last();
        if i < prev.len() {
            prev.update(i as int, v)
        } else {
            prev
        }
    }
}

} // verus!
