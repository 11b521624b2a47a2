use vstd::prelude::*;

use crate::bounds::RangeBound;
use crate::bounds::resolved_end;
use crate::bounds::resolved_start;
use crate::traits::remove_at;
use crate::traits::swap_top;
use crate::traits::tuck_top;

verus! {

/// A single push grows the entry sequence by exactly one, and the pop
/// that follows returns the pushed value and restores the sequence:
/// push and pop are strict last-in-first-out inverses.
pub proof fn lemma_push_then_pop<T>(s: Seq<T>, v: T)
    ensures
        s.push(v).len() == s.len() + 1,
        s.push(v).last() == v,
        s.push(v).drop_last() == s,
{
    assert(s.push(v).drop_last() =~= s);
}

/// Any sequence of successful pushes appends the pushed values in
/// order, so the length grows by exactly the push count; the first pop
/// afterwards returns the most recently pushed value and leaves the
/// earlier pushes in place, so repeated pops return the pushed values
/// newest first.
pub proof fn lemma_pushes_then_pops<T>(s: Seq<T>, vs: Seq<T>)
    ensures
        (s + vs).len() == s.len() + vs.len(),
        vs.len() > 0 ==> (s + vs).last() == vs.last(),
        vs.len() > 0 ==> (s + vs).drop_last() == s + vs.drop_last(),
{
    if vs.len() > 0 {
        assert((s + vs).drop_last() =~= s + vs.drop_last());
    }
}

/// Exchanging the two topmost entries twice restores the starting
/// sequence: `swap` is an involution.
pub proof fn lemma_swap_involution<T>(s: Seq<T>)
    requires
        s.len() >= 2,
    ensures
        swap_top(swap_top(s)) == s,
{
    assert(swap_top(swap_top(s)) =~= s);
}

/// On a two-entry stack, `tuck` grows the sequence by one and places a
/// copy of the former top beneath the pair, leaving the top pair as it
/// was: `[a, b]` becomes `[b, a, b]`.
pub proof fn lemma_tuck_two<T>(s: Seq<T>)
    requires
        s.len() == 2,
    ensures
        tuck_top(s).len() == 3,
        tuck_top(s) == seq![s[1], s[0], s[1]],
{
    assert(tuck_top(s) =~= seq![s[1], s[0], s[1]]);
}

/// Removing the entry at `index` shrinks the sequence by exactly one
/// and preserves the relative order of every remaining entry: entries
/// below the removed slot keep their position, entries above it move
/// down by one.
pub proof fn lemma_remove_at_preserves_order<T>(s: Seq<T>, index: int)
    requires
        0 <= index < s.len(),
    ensures
        remove_at(s, index).len() == s.len() - 1,
        forall|k: int| 0 <= k < index ==> #[trigger] remove_at(s, index)[k] == s[k],
        forall|k: int| index <= k < s.len() - 1 ==> #[trigger] remove_at(s, index)[k] == s[k + 1],
{
}

/// A range unbounded on both sides resolves to the whole occupancy
/// `[0, len)`, so a ranged peek over it yields exactly `len` entries,
/// bottom to top.
pub proof fn lemma_unbounded_range_is_whole(len: int)
    ensures
        resolved_start(RangeBound::Unbounded) == 0,
        resolved_end(RangeBound::Unbounded, len) == len,
{
}

} // verus!
