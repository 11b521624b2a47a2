use vstd::prelude::*;

use vstd::array::ArrayAdditionalExecFns;
use vstd::array::array_fill_for_copy_types;
use vstd::array::array_index_get;
use vstd::slice::slice_subrange;

use crate::bounds::RangeBound;
use crate::errors::StackError;
use crate::traits::AdvancedStackOps;
use crate::traits::StackOps;
use crate::traits::remove_at;
use crate::traits::swap_top;
use crate::traits::tuck_top;

verus! {

/// A bounded stack: a fixed-length array of `N` optional entries and a
/// count of how many leading slots are occupied.  Occupied slots always
/// form a contiguous prefix `[0, count)`; the capacity is fixed at
/// construction and never changes.
pub struct Stack<T, const N: usize> {
    data: [Option<T>; N],
    count: usize,
}

impl<T: Copy, const N: usize> Stack<T, N> {
    /// Creates a new, empty stack.
    pub fn new() -> (s: Self)
        requires
            0 < N,
        ensures
            s.inv(),
            s.entries() == Seq::<T>::empty(),
            s.capacity_spec() == N,
    {
        Stack { data: array_fill_for_copy_types(None), count: 0 }
    }

    /// Creates a stack pre-loaded with the given entries, index 0 at the
    /// bottom.  Fails `Overflow` exactly when the entries outnumber the
    /// capacity.
    pub fn with<const AMOUNT: usize>(entries: [T; AMOUNT]) -> (r: Result<Self, StackError>)
        requires
            0 < N,
        ensures
            r is Ok <==> AMOUNT <= N,
            r matches Ok(s) ==> s.inv() && s.entries() == entries@ && s.capacity_spec() == N,
            AMOUNT > N ==> r == Err::<Self, StackError>(StackError::Overflow),
    {
        if AMOUNT > N {
            return Err(StackError::Overflow);
        }
        let mut data: [Option<T>; N] = array_fill_for_copy_types(None);
        let mut i: usize = 0;
        while i < AMOUNT
            invariant
                i <= AMOUNT <= N,
                forall|k: int| 0 <= k < i ==> data@[k] == Some(entries@[k]),
                forall|k: int| i <= k < N ==> data@[k] is None,
            decreases AMOUNT - i,
        {
            let e: T = *array_index_get(&entries, i);
            data.set(i, Some(e));
            i = i + 1;
        }
        Ok(Stack { data, count: AMOUNT })
    }

    /// Returns the maximum capacity of the stack.
    pub fn capacity(&self) -> (c: usize)
        ensures
            c == N,
            c == self.capacity_spec(),
    {
        N
    }

    /// Returns the current number of occupied slots.
    pub fn len(&self) -> (l: usize)
        ensures
            l == self.entries().len(),
    {
        self.count
    }
}

impl<T: Copy, const N: usize> StackOps<T> for Stack<T, N> {
    /// Occupancy is a contiguous prefix: with `count` entries present,
    /// slots `[0, count)` are occupied and slots `[count, N)` are empty;
    /// the capacity is positive.
    closed spec fn inv(&self) -> bool {
        &&& 0 < N
        &&& self.count <= N
        &&& forall|i: int| 0 <= i < self.count ==> self.data@[i] is Some
        &&& forall|i: int| self.count <= i < N ==> self.data@[i] is None
    }

    closed spec fn entries(&self) -> Seq<T> {
        Seq::new(self.count as nat, |i: int| self.data@[i].unwrap())
    }

    closed spec fn capacity_spec(&self) -> nat {
        N as nat
    }

    proof fn inv_bounds(&self) {
    }

    fn push(&mut self, item: T) -> (r: Result<(), StackError>) {
        if self.count < N {
            let next = self.count;
            self.data.set(next, Some(item));
            self.count = next + 1;
            Ok(())
        } else {
            Err(StackError::Overflow)
        }
    }

    fn pop(&mut self) -> (r: Result<T, StackError>) {
        if self.count == 0 {
            Err(StackError::Underflow)
        } else {
            let top_idx = self.count - 1;
            let val = *array_index_get(&self.data, top_idx);
            self.data.set(top_idx, None);
            self.count = top_idx;
            Ok(val.unwrap())
        }
    }

    fn peek(&self) -> (r: Option<&T>) {
        if self.count == 0 {
            None
        } else {
            let top_idx = self.count - 1;
            array_index_get(&self.data, top_idx).as_ref()
        }
    }

    fn peek_range(&self, start: RangeBound, end: RangeBound) -> (r: Result<
        &[Option<T>],
        StackError,
    >) {
        let start_idx: usize = match start {
            RangeBound::Included(i) => i,
            RangeBound::Excluded(i) => {
                if i == usize::MAX {
                    return Err(StackError::InvalidStartIndex(i));
                }
                i + 1
            },
            RangeBound::Unbounded => 0,
        };
        let end_idx: usize = match end {
            RangeBound::Included(i) => {
                if i == usize::MAX {
                    return Err(StackError::InvalidEndIndex(i));
                }
                i + 1
            },
            RangeBound::Excluded(i) => i,
            RangeBound::Unbounded => self.count,
        };
        if start_idx > end_idx || end_idx > self.count {
            if self.count == 0 {
                return Err(StackError::Empty);
            }
            return Err(StackError::InvalidRange(start_idx, end_idx, self.count - 1));
        }
        let slots = slice_subrange(self.data.as_slice(), start_idx, end_idx);
        proof {
            assert forall|k: int| 0 <= k < slots@.len() implies slots@[k] == Some(
                self.entries()[start_idx + k],
            ) by {
                assert(slots@[k] == self.data@[start_idx + k]);
            }
        }
        Ok(slots)
    }

    fn empty(&self) -> (r: bool) {
        self.count == 0
    }

    fn full(&self) -> (r: bool) {
        self.count == N
    }

    fn clear(&mut self) {
        self.data = array_fill_for_copy_types(None);
        self.count = 0;
    }

    fn fill(&mut self, item: T) {
        self.data = array_fill_for_copy_types(Some(item));
        self.count = N;
    }
}

impl<T: Copy, const N: usize> AdvancedStackOps<T> for Stack<T, N> {
    fn duplicate(&mut self) -> (r: Result<(), StackError>) {
        if self.count == 0 {
            return Err(StackError::Empty);
        }
        if self.count >= N {
            return Err(StackError::Overflow);
        }
        let top_idx = self.count - 1;
        let top = *array_index_get(&self.data, top_idx);
        match top {
            Some(entry) => self.push(entry),
            None => Err(StackError::Invalid("corrupted stack: no entry at top")),
        }
    }

    fn delete_at(&mut self, index: usize) -> (r: Result<T, StackError>) {
        if self.count == 0 {
            return Err(StackError::Empty);
        }
        let top_idx = self.count - 1;
        if index > top_idx {
            return Err(StackError::InvalidEndIndex(index));
        }
        let entry = (*array_index_get(&self.data, index)).unwrap();
        let ghost odata = self.data@;
        let mut i = index;
        while i < top_idx
            invariant
                index <= i <= top_idx,
                top_idx < N,
                self.count == top_idx + 1,
                odata.len() == N,
                forall|k: int| 0 <= k <= top_idx ==> odata[k] is Some,
                forall|k: int| top_idx < k < N ==> odata[k] is None,
                forall|k: int| 0 <= k < index ==> self.data@[k] == odata[k],
                forall|k: int| index <= k < i ==> self.data@[k] == odata[k + 1],
                forall|k: int| i <= k < N ==> self.data@[k] == odata[k],
            decreases top_idx - i,
        {
            let shifted = *array_index_get(&self.data, i + 1);
            self.data.set(i, shifted);
            i = i + 1;
        }
        self.data.set(top_idx, None);
        self.count = top_idx;
        proof {
            assert forall|k: int| 0 <= k < self.count implies self.data@[k] is Some by {
                if k < index {
                    assert(self.data@[k] == odata[k]);
                } else {
                    assert(self.data@[k] == odata[k + 1]);
                }
            }
            assert forall|k: int| self.count <= k < N implies self.data@[k] is None by {
                if k > top_idx {
                    assert(self.data@[k] == odata[k]);
                }
            }
            assert(self.entries() =~= remove_at(old(self).entries(), index as int));
        }
        Ok(entry)
    }

    fn swap(&mut self) -> (r: Result<(), StackError>) {
        if self.count == 0 {
            return Err(StackError::Empty);
        }
        if self.count == 1 {
            return Err(StackError::NotEnoughElements);
        }
        let top_idx = self.count - 1;
        let below_idx = top_idx - 1;
        let top = *array_index_get(&self.data, top_idx);
        let below = *array_index_get(&self.data, below_idx);
        self.data.set(top_idx, below);
        self.data.set(below_idx, top);
        Ok(())
    }

    fn over(&mut self) -> (r: Result<(), StackError>) {
        if self.count == 0 {
            return Err(StackError::Empty);
        }
        if self.count == 1 {
            return Err(StackError::NotEnoughElements);
        }
        let below_idx = self.count - 2;
        let below = (*array_index_get(&self.data, below_idx)).unwrap();
        self.push(below)
    }

    fn tuck(&mut self) -> (r: Result<(), StackError>) {
        if self.count == 0 {
            return Err(StackError::Empty);
        }
        if self.count == 1 {
            return self.duplicate();
        }
        if self.count >= N {
            return Err(StackError::Overflow);
        }
        let top_idx = self.count - 1;
        let top = *array_index_get(&self.data, top_idx);
        let second = *array_index_get(&self.data, top_idx - 1);
        self.data.set(top_idx + 1, top);
        self.data.set(top_idx, second);
        self.data.set(top_idx - 1, top);
        self.count = self.count + 1;
        Ok(())
    }
}

} // verus!
