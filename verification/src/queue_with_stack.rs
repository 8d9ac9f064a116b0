//! A queue that keeps its elements in two stacks.
//!
//! Pushes go onto the inbox. Pops come off the outbox, which is refilled
//! from the inbox, all at once and only when it is empty: the move turns
//! the inbox upside down, so the oldest element comes to the top.

use vstd::prelude::*;
use vstd::std_specs::iter::IteratorSpec;

verus! {

/// What a pop returns from a queue with the elements `s`, oldest first.
pub open spec fn front_of<T>(s: Seq<T>) -> Option<T> {
    if s.len() == 0 {
        None
    } else {
        Some(s.first())
    }
}

/// What a pop leaves of a queue with the elements `s`, oldest first.
pub open spec fn behind_front<T>(s: Seq<T>) -> Seq<T> {
    if s.len() == 0 {
        s
    } else {
        s.drop_first()
    }
}

/// The elements after pushing `items` in order onto a queue that holds `s`.
pub open spec fn enqueued_all<T>(s: Seq<T>, items: Seq<T>) -> Seq<T>
    decreases items.len(),
{
    if items.len() == 0 {
        s
    } else {
        enqueued_all(s, items.drop_last()).push(items.last())
    }
}

/// The results of `n` pops in a row from a queue that holds `s`.
pub open spec fn dequeued_all<T>(s: Seq<T>, n: nat) -> Seq<Option<T>>
    decreases n,
{
    if n == 0 {
        Seq::empty()
    } else {
        seq![front_of(s)] + dequeued_all(behind_front(s), (n - 1) as nat)
    }
}

/// A queue created with two stacks: the inbox, then the outbox. Each holds
/// its elements from the bottom of the stack to its top.
#[derive(Debug, Eq, PartialEq)]
pub struct Queue<T>(pub Vec<T>, pub Vec<T>);

impl<T> View for Queue<T> {
    type V = Seq<T>;

    /// The elements in the order in which they arrived, oldest first: the
    /// outbox from its top to its bottom, then the inbox from its bottom to
    /// its top.
    open spec fn view(&self) -> Seq<T> {
        self.1@.reverse() + self.0@
    }
}

impl<T> Queue<T> {
    /// Creates an empty queue.
    pub fn new() -> (queue: Self)
        ensures
            queue@ == Seq::<T>::empty(),
            queue.0@ == Seq::<T>::empty(),
            queue.1@ == Seq::<T>::empty(),
    {
        let queue = Queue(Vec::new(), Vec::new());
        assert(queue@ =~= Seq::<T>::empty());
        queue
    }

    /// Adds `item` at the end of the queue: on top of the inbox.
    pub fn push(&mut self, item: T)
        ensures
            final(self)@ == old(self)@.push(item),
            final(self).0@ == old(self).0@.push(item),
            final(self).1@ == old(self).1@,
    {
        self.0.push(item);
        assert(self@ =~= old(self)@.push(item));
    }

    /// Removes the oldest element and returns it, or returns `None` and
    /// changes nothing if the queue is empty. The inbox is moved to the
    /// outbox only if the outbox is empty.
    pub fn pop(&mut self) -> (front: Option<T>)
        ensures
            front == front_of(old(self)@),
            final(self)@ == behind_front(old(self)@),
            old(self).1@.len() > 0 ==> final(self).0@ == old(self).0@ && final(self).1@ == old(
                self,
            ).1@.drop_last(),
            old(self).1@.len() == 0 ==> final(self).0@ == Seq::<T>::empty() && final(self).1@
                == behind_front(old(self).0@).reverse(),
    {
        if self.1.is_empty() {
            self.move_to_second_stack();
        }
        let front = self.1.pop();
        assert(old(self)@.len() > 0 ==> self@ =~= old(self)@.drop_first());
        assert(old(self).1@.len() == 0 ==> self.1@ =~= behind_front(old(self).0@).reverse());
        front
    }

    /// Moves the inbox onto the outbox, top first, which leaves the bottom
    /// of the inbox, its oldest element, on top.
    fn move_to_second_stack(&mut self)
        ensures
            final(self).0@ == Seq::<T>::empty(),
            final(self).1@ == old(self).1@ + old(self).0@.reverse(),
            old(self).1@.len() == 0 ==> final(self)@ == old(self)@,
    {
        while self.0.len() > 0
            invariant
                self.1@ == old(self).1@ + old(self).0@.subrange(
                    self.0@.len() as int,
                    old(self).0@.len() as int,
                ).reverse(),
                self.0@ == old(self).0@.take(self.0@.len() as int),
                self.0@.len() <= old(self).0@.len(),
            decreases self.0@.len(),
        {
            let item = self.0.pop().unwrap();
            self.1.push(item);
            assert(self.1@ =~= old(self).1@ + old(self).0@.subrange(
                self.0@.len() as int,
                old(self).0@.len() as int,
            ).reverse());
            assert(self.0@ =~= old(self).0@.take(self.0@.len() as int));
        }
        assert(self.0@ =~= Seq::<T>::empty());
        assert(self.1@ =~= old(self).1@ + old(self).0@.reverse());
        assert(old(self).1@.len() == 0 ==> self@ =~= old(self)@);
    }

    /// Builds a queue by pushing the elements of `items` in order.
    pub fn from_iter(items: Vec<T>) -> (queue: Queue<T>)
        ensures
            queue@ == items@,
            queue.0@ == items@,
            queue.1@ == Seq::<T>::empty(),
    {
        let mut queue = Queue::new();
        let ghost all = items@;
        for item in it: items
            invariant
                it.seq() == all,
                queue.0@ == all.take(it.index() as int),
                queue.1@ == Seq::<T>::empty(),
        {
            queue.push(item);
            assert(queue.0@ =~= all.take(it.index() + 1));
        }
        assert(queue.0@ =~= all);
        assert(queue@ =~= all);
        queue
    }

    /// Gives up the queue for its elements, oldest first: the order in
    /// which pops would have returned them.
    pub fn into_vec(self) -> (items: Vec<T>)
        ensures
            items@ == self@,
    {
        let mut queue = self;
        let mut items = Vec::new();
        loop
            invariant
                items@ + queue@ == self@,
            ensures
                queue@.len() == 0,
            decreases queue@.len(),
        {
            match queue.pop() {
                Some(item) => {
                    items.push(item);
                    assert(items@ + queue@ =~= items@.drop_last() + (seq![item] + queue@));
                },
                None => {
                    break ;
                },
            }
        }
        assert(items@ =~= self@);
        items
    }
}

impl<T> Default for Queue<T> {
    /// The empty queue.
    fn default() -> (queue: Self)
        ensures
            queue@ == Seq::<T>::empty(),
            queue.0@ == Seq::<T>::empty(),
            queue.1@ == Seq::<T>::empty(),
    {
        Queue::new()
    }
}

impl<T> IntoIterator for Queue<T> {
    type Item = T;

    type IntoIter = std::vec::IntoIter<T>;

    /// An iterator over the elements, oldest first.
    fn into_iter(self) -> (items: std::vec::IntoIter<T>)
        ensures
            items.remaining() == self@,
    {
        self.into_vec().into_iter()
    }
}

/// Elements pushed in a row stand in the queue in the order of the pushes.
pub proof fn lemma_enqueued_all<T>(s: Seq<T>, items: Seq<T>)
    ensures
        enqueued_all(s, items) == s + items,
    decreases items.len(),
{
    if items.len() == 0 {
        assert(s + items =~= s);
    } else {
        lemma_enqueued_all(s, items.drop_last());
        assert((s + items.drop_last()).push(items.last()) =~= s + items);
    }
}

/// Pops in a row return the elements from the oldest to the newest.
pub proof fn lemma_dequeued_all<T>(s: Seq<T>)
    ensures
        dequeued_all(s, s.len()) == s.map(|_i: int, v: T| Some(v)),
    decreases s.len(),
{
    if s.len() == 0 {
        assert(dequeued_all(s, s.len()) =~= s.map(|_i: int, v: T| Some(v)));
    } else {
        lemma_dequeued_all(s.drop_first());
        assert(dequeued_all(s, s.len()) =~= s.map(|_i: int, v: T| Some(v)));
    }
}

/// First in, first out: after the pushes of `items` in order onto an empty
/// queue, with no pop between them, as many pops return the items in the
/// same order.
pub proof fn lemma_fifo<T>(items: Seq<T>)
    ensures
        dequeued_all(enqueued_all(Seq::empty(), items), items.len()) == items.map(
            |_i: int, v: T| Some(v),
        ),
{
    lemma_enqueued_all(Seq::empty(), items);
    assert(Seq::<T>::empty() + items =~= items);
    lemma_dequeued_all(items);
}

} // verus!
