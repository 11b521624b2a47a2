use vstd::prelude::*;

use crate::bounds::RangeBound;
use crate::bounds::end_unrepresentable;
use crate::bounds::resolved_end;
use crate::bounds::resolved_start;
use crate::bounds::start_unrepresentable;
use crate::errors::StackError;

verus! {

/// The two topmost entries of a sequence, exchanged in place.
pub open spec fn swap_top<T>(s: Seq<T>) -> Seq<T>
    recommends
        s.len() >= 2,
{
    s.update(s.len() - 2, s[s.len() - 1]).update(s.len() - 1, s[s.len() - 2])
}

/// The effect of `tuck` on a sequence: a single entry is duplicated;
/// otherwise a copy of the top entry is reinserted directly below the
/// entry that was second from the top.
pub open spec fn tuck_top<T>(s: Seq<T>) -> Seq<T>
    recommends
        s.len() >= 1,
{
    if s.len() == 1 {
        s.push(s[0])
    } else {
        s.subrange(0, s.len() - 2) + seq![s[s.len() - 1], s[s.len() - 2], s[s.len() - 1]]
    }
}

/// The effect of `delete_at` on a sequence: the entry at `index` is
/// removed and everything above it shifts down one slot, so the
/// relative order of all remaining entries is preserved.
pub open spec fn remove_at<T>(s: Seq<T>, index: int) -> Seq<T>
    recommends
        0 <= index < s.len(),
{
    s.subrange(0, index) + s.subrange(index + 1, s.len() as int)
}

/// Basic operations of a bounded stack.
///
/// Implementors model their state as a sequence of occupied entries,
/// bottom first (`entries`), kept under a fixed capacity (`capacity`);
/// `inv` is the implementor's well-formedness invariant, established at
/// construction and preserved by every operation, including failing
/// ones.
pub trait StackOps<T>: Sized {
    /// The implementor's internal invariant.
    spec fn inv(&self) -> bool;

    /// The occupied entries, bottom first.
    spec fn entries(&self) -> Seq<T>;

    /// The fixed maximum number of entries.
    spec fn capacity_spec(&self) -> nat;

    /// The invariant bounds the state: the entries never outnumber the
    /// capacity, and the capacity is positive.  This lets callers split
    /// the failure cases of the operations below (for instance, that
    /// `duplicate` fails `Overflow` only on an exactly full stack)
    /// without seeing into the implementor's invariant.
    proof fn inv_bounds(&self)
        requires
            self.inv(),
        ensures
            self.entries().len() <= self.capacity_spec(),
            0 < self.capacity_spec(),
    ;

    /// Writes `item` just above the current top.  Fails `Overflow`, and
    /// changes nothing, exactly when no slot is free.
    fn push(&mut self, item: T) -> (r: Result<(), StackError>)
        requires
            old(self).inv(),
        ensures
            final(self).inv(),
            final(self).capacity_spec() == old(self).capacity_spec(),
            r is Ok <==> old(self).entries().len() < old(self).capacity_spec(),
            r is Ok ==> final(self).entries() == old(self).entries().push(item),
            r is Err ==> r == Err::<(), StackError>(StackError::Overflow) && final(self).entries()
                == old(self).entries(),
    ;

    /// Removes and returns the topmost entry.  Fails `Underflow`, and
    /// changes nothing, exactly when the stack is empty.
    fn pop(&mut self) -> (r: Result<T, StackError>)
        requires
            old(self).inv(),
        ensures
            final(self).inv(),
            final(self).capacity_spec() == old(self).capacity_spec(),
            r is Ok <==> old(self).entries().len() > 0,
            r matches Ok(v) ==> v == old(self).entries().last() && final(self).entries() == old(
                self,
            ).entries().drop_last(),
            r is Err ==> r == Err::<T, StackError>(StackError::Underflow) && final(self).entries()
                == old(self).entries(),
    ;

    /// Returns a reference to the topmost entry, or nothing when the
    /// stack is empty; never mutates.
    fn peek(&self) -> (r: Option<&T>)
        requires
            self.inv(),
        ensures
            r is Some <==> self.entries().len() > 0,
            r matches Some(v) ==> *v == self.entries().last(),
    ;

    /// Returns the contiguous run of occupied slots selected by the two
    /// bounds, bottom to top.  The bounds resolve to a half-open index
    /// range over `[0, len)`: any in-range request succeeds, including
    /// an empty span and the full unbounded range on an empty stack.  A
    /// bound whose value cannot be represented fails with its index
    /// error; a resolved range that is reversed or reaches past the
    /// occupancy fails `InvalidRange` carrying the resolved pair and
    /// the top index, or `Empty` when the stack has no top index to
    /// report.
    fn peek_range(&self, start: RangeBound, end: RangeBound) -> (r: Result<&[Option<T>], StackError>)
        requires
            self.inv(),
        ensures
            r is Ok <==> {
                &&& !start_unrepresentable(start)
                &&& !end_unrepresentable(end)
                &&& 0 <= resolved_start(start) <= resolved_end(end, self.entries().len() as int)
                    <= self.entries().len()
            },
            r matches Ok(slots) ==> {
                &&& slots@.len() == resolved_end(end, self.entries().len() as int) - resolved_start(
                    start,
                )
                &&& forall|k: int|
                    0 <= k < slots@.len() ==> #[trigger] slots@[k] == Some(
                        self.entries()[resolved_start(start) + k],
                    )
            },
            start_unrepresentable(start) ==> r == Err::<&[Option<T>], StackError>(
                StackError::InvalidStartIndex(start->Excluded_0),
            ),
            !start_unrepresentable(start) && end_unrepresentable(end) ==> r == Err::<
                &[Option<T>],
                StackError,
            >(StackError::InvalidEndIndex(end->Included_0)),
            r is Err && !start_unrepresentable(start) && !end_unrepresentable(end)
                && self.entries().len() == 0 ==> r == Err::<&[Option<T>], StackError>(
                StackError::Empty,
            ),
            r is Err && !start_unrepresentable(start) && !end_unrepresentable(end)
                && self.entries().len() > 0 ==> r == Err::<&[Option<T>], StackError>(
                StackError::InvalidRange(
                    resolved_start(start) as usize,
                    resolved_end(end, self.entries().len() as int) as usize,
                    (self.entries().len() - 1) as usize,
                ),
            ),
    ;

    /// Whether the stack holds no entries.
    fn empty(&self) -> (r: bool)
        requires
            self.inv(),
        ensures
            r <==> self.entries().len() == 0,
    ;

    /// Whether every slot is occupied.
    fn full(&self) -> (r: bool)
        requires
            self.inv(),
        ensures
            r <==> self.entries().len() == self.capacity_spec(),
    ;

    /// Sets every slot to unoccupied; always succeeds.
    fn clear(&mut self)
        requires
            old(self).inv(),
        ensures
            final(self).inv(),
            final(self).capacity_spec() == old(self).capacity_spec(),
            final(self).entries() == Seq::<T>::empty(),
    ;

    /// Overwrites every slot with a copy of `item`, making the stack
    /// full; prior contents are discarded unconditionally.
    fn fill(&mut self, item: T)
        requires
            old(self).inv(),
        ensures
            final(self).inv(),
            final(self).capacity_spec() == old(self).capacity_spec(),
            final(self).entries() == Seq::new(old(self).capacity_spec(), |i: int| item),
    ;
}

/// Advanced stack operations that manipulate slots beyond the top.
///
/// Every operation either applies as a single atomic transition on the
/// entry sequence or fails without touching it.
pub trait AdvancedStackOps<T>: StackOps<T> {
    /// Pushes a copy of the current top.  Fails `Empty` on an empty
    /// stack and `Overflow` on a full one, changing nothing either way.
    fn duplicate(&mut self) -> (r: Result<(), StackError>)
        requires
            old(self).inv(),
        ensures
            final(self).inv(),
            final(self).capacity_spec() == old(self).capacity_spec(),
            r is Ok <==> 0 < old(self).entries().len() < old(self).capacity_spec(),
            r is Ok ==> final(self).entries() == old(self).entries().push(
                old(self).entries().last(),
            ),
            old(self).entries().len() == 0 ==> r == Err::<(), StackError>(StackError::Empty),
            old(self).entries().len() >= old(self).capacity_spec() > 0 ==> r == Err::<
                (),
                StackError,
            >(StackError::Overflow),
            r is Err ==> final(self).entries() == old(self).entries(),
    ;

    /// Removes and returns the entry at absolute index `index` (0 is the
    /// bottom), shifting every entry above it down one slot.  Fails
    /// `Empty` on an empty stack and `InvalidEndIndex` when `index` lies
    /// above the top entry, changing nothing either way.
    fn delete_at(&mut self, index: usize) -> (r: Result<T, StackError>)
        requires
            old(self).inv(),
        ensures
            final(self).inv(),
            final(self).capacity_spec() == old(self).capacity_spec(),
            r is Ok <==> index < old(self).entries().len(),
            r matches Ok(v) ==> v == old(self).entries()[index as int] && final(self).entries()
                == remove_at(old(self).entries(), index as int),
            old(self).entries().len() == 0 ==> r == Err::<T, StackError>(StackError::Empty),
            old(self).entries().len() > 0 && index >= old(self).entries().len() ==> r == Err::<
                T,
                StackError,
            >(StackError::InvalidEndIndex(index)),
            r is Err ==> final(self).entries() == old(self).entries(),
    ;

    /// Exchanges the two topmost entries in place.  Fails `Empty` on an
    /// empty stack and `NotEnoughElements` with exactly one entry,
    /// changing nothing either way.
    fn swap(&mut self) -> (r: Result<(), StackError>)
        requires
            old(self).inv(),
        ensures
            final(self).inv(),
            final(self).capacity_spec() == old(self).capacity_spec(),
            r is Ok <==> old(self).entries().len() >= 2,
            r is Ok ==> final(self).entries() == swap_top(old(self).entries()),
            old(self).entries().len() == 0 ==> r == Err::<(), StackError>(StackError::Empty),
            old(self).entries().len() == 1 ==> r == Err::<(), StackError>(
                StackError::NotEnoughElements,
            ),
            r is Err ==> final(self).entries() == old(self).entries(),
    ;

    /// Pushes a copy of the entry immediately below the top.  Fails
    /// `Empty` on an empty stack, `NotEnoughElements` with exactly one
    /// entry, and `Overflow` on a full stack, changing nothing in any
    /// failing case.
    fn over(&mut self) -> (r: Result<(), StackError>)
        requires
            old(self).inv(),
        ensures
            final(self).inv(),
            final(self).capacity_spec() == old(self).capacity_spec(),
            r is Ok <==> 2 <= old(self).entries().len() < old(self).capacity_spec(),
            r is Ok ==> final(self).entries() == old(self).entries().push(
                old(self).entries()[old(self).entries().len() - 2],
            ),
            old(self).entries().len() == 0 ==> r == Err::<(), StackError>(StackError::Empty),
            old(self).entries().len() == 1 ==> r == Err::<(), StackError>(
                StackError::NotEnoughElements,
            ),
            old(self).entries().len() >= 2 && old(self).entries().len() >= old(
                self,
            ).capacity_spec() ==> r == Err::<(), StackError>(StackError::Overflow),
            r is Err ==> final(self).entries() == old(self).entries(),
    ;

    /// Copies the top entry and reinserts the copy directly below the
    /// entry that was second from the top; with a single entry this
    /// degenerates to `duplicate`.  Fails `Empty` on an empty stack and
    /// `Overflow` when no slot is free, changing nothing either way.
    fn tuck(&mut self) -> (r: Result<(), StackError>)
        requires
            old(self).inv(),
        ensures
            final(self).inv(),
            final(self).capacity_spec() == old(self).capacity_spec(),
            r is Ok <==> 0 < old(self).entries().len() < old(self).capacity_spec(),
            r is Ok ==> final(self).entries() == tuck_top(old(self).entries()),
            old(self).entries().len() == 0 ==> r == Err::<(), StackError>(StackError::Empty),
            old(self).entries().len() >= old(self).capacity_spec() > 0 ==> r == Err::<
                (),
                StackError,
            >(StackError::Overflow),
            r is Err ==> final(self).entries() == old(self).entries(),
    ;
}

} // verus!
