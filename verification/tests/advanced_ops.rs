use rpn::AdvancedStackOps;
use rpn::RangeBound;
use rpn::Stack;
use rpn::StackError;
use rpn::StackOps;

fn contents<const N: usize>(stack: &Stack<i32, N>) -> Vec<i32> {
    let slots = stack.peek_range(RangeBound::Unbounded, RangeBound::Unbounded).unwrap();
    slots.iter().map(|s| s.unwrap()).collect()
}

#[test]
fn duplicate_pushes_copy_of_top() {
    let mut stack = Stack::<i32, 4>::with([1, 2]).unwrap();
    assert_eq!(stack.duplicate(), Ok(()));
    assert_eq!(contents(&stack), vec![1, 2, 2]);
}

#[test]
fn duplicate_on_empty_fails_empty() {
    let mut stack: Stack<i32, 4> = Stack::new();
    assert_eq!(stack.duplicate(), Err(StackError::Empty));
    assert_eq!(stack.len(), 0);
}

#[test]
fn duplicate_on_full_fails_overflow_and_changes_nothing() {
    let mut stack = Stack::<i32, 2>::with([1, 2]).unwrap();
    assert_eq!(stack.duplicate(), Err(StackError::Overflow));
    assert_eq!(contents(&stack), vec![1, 2]);
}

#[test]
fn swap_exchanges_top_two() {
    let mut stack = Stack::<i32, 4>::with([1, 2, 3]).unwrap();
    assert_eq!(stack.swap(), Ok(()));
    assert_eq!(contents(&stack), vec![1, 3, 2]);
}

#[test]
fn swap_twice_restores_original_order() {
    let mut stack = Stack::<i32, 4>::with([1, 2, 3]).unwrap();
    assert_eq!(stack.swap(), Ok(()));
    assert_eq!(stack.swap(), Ok(()));
    assert_eq!(contents(&stack), vec![1, 2, 3]);
}

#[test]
fn swap_on_empty_fails_empty() {
    let mut stack: Stack<i32, 4> = Stack::new();
    assert_eq!(stack.swap(), Err(StackError::Empty));
    assert_eq!(stack.len(), 0);
}

#[test]
fn swap_on_single_entry_fails_not_enough_elements() {
    let mut stack = Stack::<i32, 4>::with([1]).unwrap();
    assert_eq!(stack.swap(), Err(StackError::NotEnoughElements));
    assert_eq!(contents(&stack), vec![1]);
}

#[test]
fn over_pushes_copy_of_second_from_top() {
    let mut stack = Stack::<i32, 4>::with([1, 2]).unwrap();
    assert_eq!(stack.over(), Ok(()));
    assert_eq!(contents(&stack), vec![1, 2, 1]);
}

#[test]
fn over_on_empty_fails_empty() {
    let mut stack: Stack<i32, 4> = Stack::new();
    assert_eq!(stack.over(), Err(StackError::Empty));
    assert_eq!(stack.len(), 0);
}

#[test]
fn over_on_single_entry_fails_not_enough_elements() {
    let mut stack = Stack::<i32, 4>::with([1]).unwrap();
    assert_eq!(stack.over(), Err(StackError::NotEnoughElements));
    assert_eq!(contents(&stack), vec![1]);
}

#[test]
fn over_on_full_stack_fails_overflow() {
    let mut stack = Stack::<i32, 2>::with([1, 2]).unwrap();
    assert_eq!(stack.over(), Err(StackError::Overflow));
    assert_eq!(contents(&stack), vec![1, 2]);
}

#[test]
fn tuck_on_two_entries_duplicates_former_top_below_the_pair() {
    let mut stack = Stack::<i32, 4>::with([1, 2]).unwrap();
    assert_eq!(stack.tuck(), Ok(()));
    assert_eq!(stack.len(), 3);
    assert_eq!(contents(&stack), vec![2, 1, 2]);
}

#[test]
fn tuck_leaves_entries_below_the_top_pair_in_place() {
    let mut stack = Stack::<i32, 6>::with([1, 2, 3, 4]).unwrap();
    assert_eq!(stack.tuck(), Ok(()));
    assert_eq!(contents(&stack), vec![1, 2, 4, 3, 4]);
}

#[test]
fn tuck_on_single_entry_degenerates_to_duplicate() {
    let mut stack = Stack::<i32, 4>::with([5]).unwrap();
    assert_eq!(stack.tuck(), Ok(()));
    assert_eq!(contents(&stack), vec![5, 5]);
}

#[test]
fn tuck_on_empty_fails_empty() {
    let mut stack: Stack<i32, 4> = Stack::new();
    assert_eq!(stack.tuck(), Err(StackError::Empty));
    assert_eq!(stack.len(), 0);
}

#[test]
fn tuck_with_no_free_slot_fails_overflow() {
    let mut stack = Stack::<i32, 3>::with([1, 2, 3]).unwrap();
    assert_eq!(stack.tuck(), Err(StackError::Overflow));
    assert_eq!(contents(&stack), vec![1, 2, 3]);
    let mut single = Stack::<i32, 1>::with([7]).unwrap();
    assert_eq!(single.tuck(), Err(StackError::Overflow));
    assert_eq!(contents(&single), vec![7]);
}

#[test]
fn delete_at_middle_preserves_order_of_the_rest() {
    let mut stack = Stack::<i32, 5>::with([1, 2, 3, 4]).unwrap();
    assert_eq!(stack.delete_at(1), Ok(2));
    assert_eq!(stack.len(), 3);
    assert_eq!(contents(&stack), vec![1, 3, 4]);
}

#[test]
fn delete_at_bottom_and_top() {
    let mut stack = Stack::<i32, 5>::with([1, 2, 3]).unwrap();
    assert_eq!(stack.delete_at(0), Ok(1));
    assert_eq!(contents(&stack), vec![2, 3]);
    assert_eq!(stack.delete_at(1), Ok(3));
    assert_eq!(contents(&stack), vec![2]);
}

#[test]
fn delete_at_on_empty_fails_empty() {
    let mut stack: Stack<i32, 4> = Stack::new();
    assert_eq!(stack.delete_at(0), Err(StackError::Empty));
    assert_eq!(stack.len(), 0);
}

#[test]
fn delete_at_above_top_fails_invalid_end_index() {
    let mut stack = Stack::<i32, 4>::with([1, 2]).unwrap();
    assert_eq!(stack.delete_at(2), Err(StackError::InvalidEndIndex(2)));
    assert_eq!(contents(&stack), vec![1, 2]);
}
