use stdlib_rs::min_stack::MinStack;

#[test]
fn min_test_1() {
    let mut stack = MinStack::new();
    stack.push(1);
    stack.push(2);
    stack.push(3);
    let min = stack.min();
    assert_eq!(min, Some(1));
}

#[test]
fn min_test_empty() {
    let empty: MinStack<i32> = MinStack::new();
    assert_eq!(empty.min(), None);
}

#[test]
fn peek_test_1() {
    let mut stack = MinStack::new();
    stack.push(1);
    stack.push(2);
    stack.push(3);
    let top = stack.peek();
    assert_eq!(top, Some(3));
}

#[test]
fn peek_test_empty() {
    let empty: MinStack<i32> = MinStack::new();
    assert_eq!(empty.peek(), None);
}

#[test]
fn empty_test() {
    let empty: MinStack<i32> = MinStack::new();
    assert_eq!(empty.is_empty(), true);
}

#[test]
fn non_empty_test() {
    let mut stack: MinStack<i32> = MinStack::new();
    stack.push(1);
    assert_eq!(stack.is_empty(), false);
}

#[test]
fn empty_len_test() {
    let empty: MinStack<i32> = MinStack::new();
    assert_eq!(empty.len(), 0);
}

#[test]
fn one_item_stack_len() {
    let mut stack: MinStack<i32> = MinStack::new();
    stack.push(1);
    assert_eq!(stack.len(), 1);
}

#[test]
fn into_iter_test_1() {
    let mut stack = MinStack::new();
    stack.push(1);
    stack.push(2);
    stack.push(3);
    let mut entries = stack.into_iter();
    assert_eq!(entries.next(), Some((1, 1)));
    assert_eq!(entries.next(), Some((2, 1)));
    assert_eq!(entries.next(), Some((3, 1)));
}

#[test]
fn from_vec_test_1() {
    let vec = vec![1, 2, 3];
    let mut expected = MinStack::new();
    expected.push(1);
    expected.push(2);
    expected.push(3);
    assert_eq!(MinStack::from(vec), expected);
}

#[test]
fn test_index_1() {
    let mut stack = MinStack::new();
    stack.push(1);
    assert_eq!(stack[0], (1, 1));
}

#[test]
fn test_reserve_1() {
    let mut stack = MinStack::new();
    stack.push(1);
    stack.reserve(10);
    assert!(stack.capacity() >= 11);
}

#[test]
fn test_as_slice_1() {
    let mut stack = MinStack::new();
    stack.push(1);
    stack.push(2);
    stack.push(3);
    assert_eq!([(1, 1), (2, 1), (3, 1)], stack.as_slice());
}

#[test]
fn append_empty_stack() {
    let mut left = MinStack::new();
    left.push(1);
    let mut right = MinStack::new();
    left.append(&mut right);
    let mut expected = MinStack::new();
    expected.push(1);
    assert_eq!(left, expected);
    assert_eq!(right, MinStack::new());
}

#[test]
fn append_to_empty_stack() {
    let mut left = MinStack::new();
    let mut right = MinStack::new();
    right.push(1);
    left.append(&mut right);
    let mut expected = MinStack::new();
    expected.push(1);
    assert_eq!(left, expected);
    assert_eq!(right, MinStack::new());
}

#[test]
fn append_two_empty_stacks() {
    let mut left: MinStack<i32> = MinStack::new();
    let mut right = MinStack::new();
    left.append(&mut right);
    assert_eq!(left, MinStack::new());
    assert_eq!(right, MinStack::new());
}

#[test]
fn append_two_stacks() {
    let mut left = MinStack::new();
    left.push(1);
    let mut right = MinStack::new();
    right.push(2);
    left.append(&mut right);
    let mut expected = MinStack::new();
    expected.push(1);
    expected.push(2);
    assert_eq!(left, expected);
    assert_eq!(right, MinStack::new());
}

#[test]
fn test_eq_stacks_1() {
    let mut left = MinStack::new();
    left.push(1);
    left.push(2);
    let mut right = MinStack::new();
    right.push(1);
    right.push(2);
    assert_eq!(left, right);
}

#[test]
fn test_neq_stacks_1() {
    let mut left = MinStack::new();
    left.push(2);
    left.push(1);
    let mut right = MinStack::new();
    right.push(1);
    right.push(2);
    assert_ne!(left, right);
}

#[test]
fn min_follows_pushes_and_pops() {
    let mut stack = MinStack::new();
    stack.push(3);
    assert_eq!(stack.min(), Some(3));
    stack.push(1);
    assert_eq!(stack.min(), Some(1));
    stack.push(2);
    assert_eq!(stack.min(), Some(1));
    assert_eq!(stack.as_slice(), [(3, 3), (1, 1), (2, 1)]);
    assert_eq!(stack.pop(), Some(2));
    assert_eq!(stack.min(), Some(1));
    assert_eq!(stack.pop(), Some(1));
    assert_eq!(stack.min(), Some(3));
    assert_eq!(stack.pop(), Some(3));
    assert_eq!(stack.min(), None);
    assert_eq!(stack.pop(), None);
    assert!(stack.is_empty());
}

#[test]
fn min_is_the_least_value_after_each_push() {
    let values = [5, 9, 5, 2, 7, 2, 1, 8, -3, 0];
    let mut stack = MinStack::new();
    for (i, v) in values.iter().enumerate() {
        stack.push(*v);
        let least = values[..=i].iter().min().copied();
        assert_eq!(stack.min(), least);
        assert_eq!(stack.len(), i + 1);
    }
}

#[test]
fn min_keeps_the_earlier_of_equal_values() {
    let mut stack = MinStack::new();
    stack.push((1, 'a'));
    stack.push((1, 'a'));
    stack.push((0, 'b'));
    assert_eq!(stack.min(), Some((0, 'b')));
    assert_eq!(stack.pop(), Some((0, 'b')));
    assert_eq!(stack.min(), Some((1, 'a')));
}

#[test]
fn pop_returns_what_peek_showed() {
    let mut stack = MinStack::from(vec![4, 8, 6]);
    while !stack.is_empty() {
        let shown = stack.peek();
        let len = stack.len();
        assert_eq!(stack.pop(), shown);
        assert_eq!(stack.len(), len - 1);
    }
    assert_eq!(stack.peek(), None);
    assert_eq!(stack.pop(), None);
}

#[test]
fn append_recomputes_the_running_minimums() {
    let mut left = MinStack::from(vec![5, 3]);
    let mut right = MinStack::from(vec![4, 1, 2]);
    assert_eq!(right.as_slice(), [(4, 4), (1, 1), (2, 1)]);
    left.append(&mut right);
    assert_eq!(left, MinStack::from(vec![5, 3, 4, 1, 2]));
    assert_eq!(left.as_slice(), [(5, 5), (3, 3), (4, 3), (1, 1), (2, 1)]);
    assert!(right.is_empty());
    assert_eq!(right.min(), None);
}

#[test]
fn empty_min_stack_stays_empty() {
    let mut stack: MinStack<u8> = MinStack::default();
    assert_eq!(stack.pop(), None);
    assert_eq!(stack.peek(), None);
    assert_eq!(stack.min(), None);
    assert_eq!(stack.len(), 0);
    assert!(stack.is_empty());
    assert_eq!(stack, MinStack::new());
}

#[test]
fn clear_removes_every_entry() {
    let mut stack = MinStack::from(vec![1, 2, 3]);
    stack.clear();
    assert_eq!(stack, MinStack::new());
    assert_eq!(stack.min(), None);
    stack.push(7);
    assert_eq!(stack.min(), Some(7));
}

#[test]
fn with_capacity_is_empty_and_roomy() {
    let stack: MinStack<i32> = MinStack::with_capacity(10);
    assert!(stack.capacity() >= 10);
    assert!(stack.is_empty());
}

#[test]
fn entries_can_be_read_as_a_slice() {
    let stack = MinStack::from(vec![2, 1, 3]);
    assert_eq!(stack.first(), Some(&(2, 2)));
    assert_eq!(stack.last(), Some(&(3, 1)));
    assert_eq!(stack[1], (1, 1));
    let values: Vec<i32> = stack.iter().map(|entry| entry.0).collect();
    assert_eq!(values, vec![2, 1, 3]);
}

#[test]
fn entries_can_be_written_through_the_slice() {
    let mut stack = MinStack::from(vec![2, 1, 3]);
    stack.swap(0, 2);
    assert_eq!(stack.as_slice(), [(3, 1), (1, 1), (2, 2)]);
    assert_eq!(stack.len(), 3);
}
