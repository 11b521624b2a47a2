//! A bounded-capacity stack engine for a reverse-Polish-notation
//! calculator: a fixed-size, heap-free LIFO container of calculator
//! entries, with position-aware manipulation primitives (duplicate,
//! swap, over, tuck, delete-at-index, ranged peek) whose contracts pin
//! down every success and every failure.

pub mod bounds;
pub mod entry;
pub mod errors;
pub mod laws;
pub mod stack;
pub mod traits;

pub use bounds::RangeBound;
pub use entry::StackEntry;
pub use errors::BoundPosition;
pub use errors::StackError;
pub use errors::increment_checked_up_to_u8;
pub use errors::try_usize_to_u8;
pub use stack::Stack;
pub use traits::AdvancedStackOps;
pub use traits::StackOps;
