use vstd::prelude::*;

verus! {

/// The closed set of failure kinds returned by every fallible stack
/// operation.  Every error is reported to the immediate caller; no
/// operation aborts.
#[derive(Clone, Copy, Debug, PartialEq, Eq)]
pub enum StackError {
    /// An insertion was attempted with no free slot left.
    Overflow,
    /// A removal was attempted on an empty stack.
    Underflow,
    /// A position-aware operation needs at least one entry and found none.
    Empty,
    /// An operation needs at least two entries and found exactly one.
    NotEnoughElements,
    /// An internal consistency fault; never produced by well-formed calls.
    Invalid(&'static str),
    /// A start bound's numeric value cannot be represented in the index
    /// width in use.
    InvalidStartIndex(usize),
    /// An end bound's numeric value cannot be represented in the index
    /// width in use, or an explicit index lies above the top entry.
    InvalidEndIndex(usize),
    /// A resolved half-open range `(start, end)` is inconsistent with the
    /// current occupancy; the third field is the index of the top entry.
    InvalidRange(usize, usize, usize),
}

impl StackError {
    /// The fixed text a console sink prints for each error kind.  For
    /// `Invalid` the text is the recorded reason; positional payloads
    /// stay on the variant itself.
    pub open spec fn message_spec(&self) -> Seq<char> {
        match self {
            StackError::Overflow => "Stack Overflow"@,
            StackError::Underflow => "Stack Underflow"@,
            StackError::Empty => "Stack is empty"@,
            StackError::NotEnoughElements => "Operation requires more Arguments"@,
            StackError::Invalid(msg) => msg@,
            StackError::InvalidStartIndex(_) => "Lower bound index is out of range"@,
            StackError::InvalidEndIndex(_) => "Upper bound index is out of range"@,
            StackError::InvalidRange(_, _, _) => "The requested range is invalid for the current stack occupancy"@,
        }
    }

    /// Returns the human-readable text of this error kind.
    pub fn message(&self) -> (r: &'static str)
        ensures
            r@ == self.message_spec(),
    {
        match self {
            StackError::Overflow => "Stack Overflow",
            StackError::Underflow => "Stack Underflow",
            StackError::Empty => "Stack is empty",
            StackError::NotEnoughElements => "Operation requires more Arguments",
            StackError::Invalid(msg) => *msg,
            StackError::InvalidStartIndex(_) => "Lower bound index is out of range",
            StackError::InvalidEndIndex(_) => "Upper bound index is out of range",
            StackError::InvalidRange(_, _, _) => "The requested range is invalid for the current stack occupancy",
        }
    }
}

/// Which side of a range a bound belongs to, for index-width checks.
#[derive(Clone, Copy, Debug, PartialEq, Eq)]
pub enum BoundPosition {
    Start,
    End,
}

/// The index-width error reported for a bound at the given position.
pub open spec fn bound_error(pos: BoundPosition, index: usize) -> StackError {
    match pos {
        BoundPosition::Start => StackError::InvalidStartIndex(index),
        BoundPosition::End => StackError::InvalidEndIndex(index),
    }
}

/// Narrows an index to the `u8` index width: values above `u8::MAX` are
/// rejected with the error of the given bound position.
pub fn try_usize_to_u8(val: usize, bound_pos: BoundPosition) -> (r: Result<usize, StackError>)
    ensures
        val <= u8::MAX ==> r == Ok::<usize, StackError>(val),
        val > u8::MAX ==> r == Err::<usize, StackError>(bound_error(bound_pos, val)),
{
    if val <= u8::MAX as usize {
        Ok(val)
    } else {
        Err(bound_position_error(bound_pos, val))
    }
}

/// Increments an index and narrows the result to the `u8` index width;
/// both the increment overflowing `usize` and a result above `u8::MAX`
/// are rejected with the error of the given bound position.
pub fn increment_checked_up_to_u8(val: usize, bound_pos: BoundPosition) -> (r: Result<
    usize,
    StackError,
>)
    ensures
        val + 1 <= u8::MAX ==> r == Ok::<usize, StackError>((val + 1) as usize),
        val == usize::MAX ==> r == Err::<usize, StackError>(bound_error(bound_pos, val)),
        val < usize::MAX && val + 1 > u8::MAX ==> r == Err::<usize, StackError>(
            bound_error(bound_pos, (val + 1) as usize),
        ),
{
    if val == usize::MAX {
        Err(bound_position_error(bound_pos, val))
    } else {
        try_usize_to_u8(val + 1, bound_pos)
    }
}

/// Builds the index-width error for the given bound position.
fn bound_position_error(pos: BoundPosition, index: usize) -> (e: StackError)
    ensures
        e == bound_error(pos, index),
{
    match pos {
        BoundPosition::Start => StackError::InvalidStartIndex(index),
        BoundPosition::End => StackError::InvalidEndIndex(index),
    }
}

} // verus!
