use vstd::prelude::*;

verus! {

/// One end of a requested peek range: inclusive, exclusive, or absent.
#[derive(Clone, Copy, Debug, PartialEq, Eq, Structural)]
pub enum RangeBound {
    /// The bound's index itself belongs to the range.
    Included(usize),
    /// The range starts or stops just beside the bound's index.
    Excluded(usize),
    /// No bound on this side: the range reaches the bottom or the top.
    Unbounded,
}

/// The concrete start of the half-open index range a start bound
/// describes: an unbounded start is the bottom of the stack, an
/// exclusive start begins just above its index.
pub open spec fn resolved_start(b: RangeBound) -> int {
    match b {
        RangeBound::Included(i) => i as int,
        RangeBound::Excluded(i) => i as int + 1,
        RangeBound::Unbounded => 0,
    }
}

/// The concrete end of the half-open index range an end bound
/// describes, given the number of occupied slots: an unbounded end is
/// the occupancy itself, an inclusive end stops just above its index.
pub open spec fn resolved_end(b: RangeBound, len: int) -> int {
    match b {
        RangeBound::Included(i) => i as int + 1,
        RangeBound::Excluded(i) => i as int,
        RangeBound::Unbounded => len,
    }
}

/// Whether resolving a start bound would overflow the index width.
pub open spec fn start_unrepresentable(b: RangeBound) -> bool {
    b matches RangeBound::Excluded(i) && i == usize::MAX
}

/// Whether resolving an end bound would overflow the index width.
pub open spec fn end_unrepresentable(b: RangeBound) -> bool {
    b matches RangeBound::Included(i) && i == usize::MAX
}

} // verus!
