use stdlib_rs::collections::stack_with_queue::Stack;

#[test]
fn stack_with_queue_push_test() {
    let mut stack = Stack::default();
    stack.push(1);
    let mut expected = Stack::default();
    expected.push(1);
    assert_eq!(stack, expected);
}

#[test]
fn stack_with_queue_pop_test() {
    let mut stack = Stack::default();
    stack.push(1);
    stack.push(2);
    stack.push(3);
    assert_eq!(stack.pop(), Some(3));
}

#[test]
fn stack_pops_in_reverse_push_order() {
    let mut stack = Stack::new();
    for i in 1..=10 {
        stack.push(i);
    }
    for i in (1..=10).rev() {
        assert_eq!(stack.pop(), Some(i));
    }
    assert_eq!(stack.pop(), None);
}

#[test]
fn stack_pushes_between_pops() {
    let mut stack = Stack::new();
    stack.push('a');
    stack.push('b');
    stack.push('c');
    assert_eq!(stack.pop(), Some('c'));
    stack.push('d');
    assert_eq!(stack.pop(), Some('d'));
    assert_eq!(stack.pop(), Some('b'));
    let mut expected = Stack::new();
    expected.push('a');
    assert_eq!(stack, expected);
    assert_eq!(stack.pop(), Some('a'));
    assert_eq!(stack.pop(), None);
}

#[test]
fn empty_stack_stays_empty() {
    let mut stack: Stack<i32> = Stack::new();
    assert_eq!(stack.pop(), None);
    assert_eq!(stack, Stack::new());
    assert_eq!(stack.pop(), None);
    assert_eq!(stack, Stack::default());
}
