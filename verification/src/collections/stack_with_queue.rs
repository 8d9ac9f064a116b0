//! A stack that keeps its elements in two first-in-first-out queues.
//!
//! Between operations the first queue holds every element, oldest at the
//! front, and the second is empty. A pop empties the first queue into the
//! second in reverse, so that the newest element comes to the front, takes
//! that element, puts the rest back into arrival order, and lets the two
//! queues change roles.

use std::collections::VecDeque;
use vstd::prelude::*;

verus! {

/// What a pop returns from a stack with the elements `s`, oldest first.
pub open spec fn top_of<T>(s: Seq<T>) -> Option<T> {
    if s.len() == 0 {
        None
    } else {
        Some(s.last())
    }
}

/// What a pop leaves of a stack with the elements `s`, oldest first.
pub open spec fn below_top<T>(s: Seq<T>) -> Seq<T> {
    if s.len() == 0 {
        s
    } else {
        s.drop_last()
    }
}

/// The elements after pushing `items` in order onto a stack that holds `s`.
pub open spec fn pushed_all<T>(s: Seq<T>, items: Seq<T>) -> Seq<T>
    decreases items.len(),
{
    if items.len() == 0 {
        s
    } else {
        pushed_all(s, items.drop_last()).push(items.last())
    }
}

/// The results of `n` pops in a row from a stack that holds `s`.
pub open spec fn popped_all<T>(s: Seq<T>, n: nat) -> Seq<Option<T>>
    decreases n,
{
    if n == 0 {
        Seq::empty()
    } else {
        seq![top_of(s)] + popped_all(below_top(s), (n - 1) as nat)
    }
}

/// A stack implemented with two queues.
#[derive(Debug, PartialEq, Eq, PartialOrd, Ord)]
pub struct Stack<T>(VecDeque<T>, VecDeque<T>);

impl<T> View for Stack<T> {
    type V = Seq<T>;

    /// The elements in the order in which they were pushed, oldest first.
    closed spec fn view(&self) -> Seq<T> {
        self.0@
    }
}

impl<T> Stack<T> {
    /// The second queue is empty, as it is between any two operations.
    pub closed spec fn wf(&self) -> bool {
        self.1@.len() == 0
    }

    /// Creates an empty stack.
    pub fn new() -> (stack: Stack<T>)
        ensures
            stack@ == Seq::<T>::empty(),
            stack.wf(),
    {
        Stack(VecDeque::new(), VecDeque::new())
    }

    /// Puts `item` on top of the stack.
    pub fn push(&mut self, item: T)
        requires
            old(self).wf(),
        ensures
            final(self)@ == old(self)@.push(item),
            final(self).wf(),
    {
        self.0.push_back(item);
    }

    /// Removes the newest element and returns it, or returns `None` and
    /// changes nothing if the stack is empty.
    pub fn pop(&mut self) -> (top: Option<T>)
        requires
            old(self).wf(),
        ensures
            top == top_of(old(self)@),
            final(self)@ == below_top(old(self)@),
            final(self).wf(),
    {
        if self.0.len() == 0 {
            return None;
        }
        self.move_to_second();
        let top = self.1.pop_front();
        let mut rest = VecDeque::new();
        core::mem::swap(&mut self.1, &mut rest);
        self.1 = reversed(rest);
        core::mem::swap(&mut self.0, &mut self.1);
        assert(self@ =~= old(self)@.drop_last());
        top
    }

    /// Empties the first queue into the second, newest element first.
    fn move_to_second(&mut self)
        ensures
            final(self).0@.len() == 0,
            final(self).1@ == old(self).0@.reverse(),
    {
        let mut temp = VecDeque::new();
        loop
            invariant
                temp@ + self.0@ == old(self).0@,
            ensures
                self.0@.len() == 0,
            decreases self.0@.len(),
        {
            match self.0.pop_front() {
                Some(item) => {
                    temp.push_back(item);
                    assert(temp@ + self.0@ =~= old(self).0@) by {
                        assert(temp@.drop_last() + seq![item] + self.0@ =~= temp@ + self.0@);
                    }
                },
                None => {
                    break ;
                },
            }
        }
        assert(temp@ =~= old(self).0@);
        self.1 = reversed(temp);
    }
}

impl<T> Default for Stack<T> {
    /// The empty stack.
    fn default() -> (stack: Stack<T>)
        ensures
            stack@ == Seq::<T>::empty(),
            stack.wf(),
    {
        Stack::new()
    }
}

/// A queue with the elements of `queue` in the opposite order.
fn reversed<T>(queue: VecDeque<T>) -> (result: VecDeque<T>)
    ensures
        result@ == queue@.reverse(),
{
    let mut source = queue;
    let mut result = VecDeque::new();
    loop
        invariant
            result@ == queue@.subrange(source@.len() as int, queue@.len() as int).reverse(),
            source@ == queue@.take(source@.len() as int),
            source@.len() <= queue@.len(),
        ensures
            source@.len() == 0,
        decreases source@.len(),
    {
        match source.pop_back() {
            Some(item) => {
                result.push_back(item);
                assert(result@ =~= queue@.subrange(
                    source@.len() as int,
                    queue@.len() as int,
                ).reverse());
                assert(source@ =~= queue@.take(source@.len() as int));
            },
            None => {
                break ;
            },
        }
    }
    assert(result@ =~= queue@.reverse());
    result
}

/// Elements pushed in a row stand on the stack in the order of the pushes.
pub proof fn lemma_pushed_all<T>(s: Seq<T>, items: Seq<T>)
    ensures
        pushed_all(s, items) == s + items,
    decreases items.len(),
{
    if items.len() == 0 {
        assert(s + items =~= s);
    } else {
        lemma_pushed_all(s, items.drop_last());
        assert((s + items.drop_last()).push(items.last()) =~= s + items);
    }
}

/// Pops in a row return the elements from the newest to the oldest.
pub proof fn lemma_popped_all<T>(s: Seq<T>)
    ensures
        popped_all(s, s.len()) == s.reverse().map(|_i: int, v: T| Some(v)),
    decreases s.len(),
{
    if s.len() == 0 {
        assert(popped_all(s, s.len()) =~= s.reverse().map(|_i: int, v: T| Some(v)));
    } else {
        lemma_popped_all(s.drop_last());
        assert(popped_all(s, s.len()) =~= s.reverse().map(|_i: int, v: T| Some(v)));
    }
}

/// Last in, first out: after the pushes of `items` in order onto an empty
/// stack, with no pop between them, as many pops return the items in the
/// opposite order.
pub proof fn lemma_lifo<T>(items: Seq<T>)
    ensures
        popped_all(pushed_all(Seq::empty(), items), items.len()) == items.reverse().map(
            |_i: int, v: T| Some(v),
        ),
{
    lemma_pushed_all(Seq::empty(), items);
    assert(Seq::<T>::empty() + items =~= items);
    lemma_popped_all(items);
}

} // verus!
