use vstd::prelude::*;

verus! {

/// A calculator payload value: a small, freely copyable tagged variant
/// with value semantics.  No variant owns another entry or any heap
/// resource, so copying is always cheap and never aliases mutable state.
#[derive(Clone, Copy, Debug, PartialEq, Eq, Structural)]
pub enum StackEntry {
    /// Placeholder for payload kinds not yet modelled.
    Dummy,
    /// A signed integer operand or result.
    Integer(i32),
}

} // verus!
