//! A stack that keeps, beside every value, the minimum of the values up to
//! and including it, so that the minimum of the whole stack is always at
//! hand on the top entry.

use core::cmp::Ordering;
use core::ops::{Deref, DerefMut, Index};
use vstd::laws_cmp::obeys_cmp;
use vstd::prelude::*;
use vstd::std_specs::cmp::{OrdSpec, PartialOrdSpec};
use vstd::std_specs::iter::IteratorSpec;

verus! {

/// A clone of a `T` is equal to the value cloned.
pub open spec fn clones_exactly<T: Clone>() -> bool {
    forall|a: T, b: T| #[trigger] cloned(a, b) ==> a == b
}

/// `T` behaves as an element type must: its comparison is a total order, as
/// `obeys_cmp` states it, and a clone is equal to the value cloned. For the
/// integer types, `vstd::laws_cmp::group_laws_cmp` proves the first part and
/// the second holds by itself.
pub open spec fn lawful<T: Ord + Clone>() -> bool {
    &&& obeys_cmp::<T>()
    &&& clones_exactly::<T>()
}

/// `a` is not greater than `b`.
pub open spec fn at_most<T: Ord>(a: T, b: T) -> bool {
    a.cmp_spec(&b) != Ordering::Greater
}

/// The smaller of `a` and `b`; `a` where they compare equal.
pub open spec fn lesser<T: Ord>(a: T, b: T) -> T {
    if b.cmp_spec(&a) == Ordering::Less {
        b
    } else {
        a
    }
}

/// The minimum of a non-empty sequence, folded from the left: the running
/// minimum that the stack stores beside the last element of `s`.
pub open spec fn minimum<T: Ord>(s: Seq<T>) -> T
    recommends
        s.len() > 0,
    decreases s.len(),
{
    if s.len() <= 1 {
        s[0]
    } else {
        lesser(minimum(s.drop_last()), s.last())
    }
}

/// The running minimum that a push of `item` stores beside it: `item` on an
/// empty stack, else the lesser of the running minimum on top and `item`.
pub open spec fn pushed_min<T: Ord>(entries: Seq<(T, T)>, item: T) -> T {
    if entries.len() == 0 {
        item
    } else {
        lesser(entries.last().1, item)
    }
}

/// The entries after a push of `item`.
pub open spec fn pushed<T: Ord>(entries: Seq<(T, T)>, item: T) -> Seq<(T, T)> {
    entries.push((item, pushed_min(entries, item)))
}

/// The entries after the pushes of `items`, first to last.
pub open spec fn pushed_all<T: Ord>(entries: Seq<(T, T)>, items: Seq<T>) -> Seq<(T, T)>
    decreases items.len(),
{
    if items.len() == 0 {
        entries
    } else {
        pushed(pushed_all(entries, items.drop_last()), items.last())
    }
}

/// The entries after a pop: all but the last, or none if there is none.
pub open spec fn popped<T>(entries: Seq<(T, T)>) -> Seq<(T, T)> {
    if entries.len() == 0 {
        entries
    } else {
        entries.drop_last()
    }
}

/// The values of a sequence of entries, without their running minimums.
pub open spec fn values_of<T>(entries: Seq<(T, T)>) -> Seq<T> {
    entries.map(|_i: int, e: (T, T)| e.0)
}

/// Each of `values` with the minimum of the values up to and including it.
pub open spec fn entries_of<T: Ord>(values: Seq<T>) -> Seq<(T, T)> {
    Seq::new(values.len(), |i: int| (values[i], minimum(values.take(i + 1))))
}

/// A stack that answers `min` in constant time.
#[derive(Debug, Clone, PartialEq, Eq, PartialOrd)]
pub struct MinStack<T: Ord>(Vec<(T, T)>);

impl<T: Ord> View for MinStack<T> {
    type V = Seq<(T, T)>;

    /// The entries from the bottom of the stack to its top, each a value
    /// with the running minimum stored beside it.
    closed spec fn view(&self) -> Seq<(T, T)> {
        self.0@
    }
}

impl<T: Ord> MinStack<T> {
    /// The values from the bottom of the stack to its top.
    pub open spec fn values(&self) -> Seq<T> {
        values_of(self@)
    }

    /// Every entry carries the minimum of the values up to and including it.
    pub open spec fn wf(&self) -> bool {
        self@ == entries_of(self.values())
    }

    /// What `peek` and `pop` return: the value on top, if there is one.
    pub open spec fn peek_spec(&self) -> Option<T> {
        if self@.len() == 0 {
            None
        } else {
            Some(self@.last().0)
        }
    }

    /// What `min` returns: the running minimum on top, if there is an entry.
    pub open spec fn min_spec(&self) -> Option<T> {
        if self@.len() == 0 {
            None
        } else {
            Some(self@.last().1)
        }
    }

    /// Creates an empty stack.
    pub fn new() -> (stack: Self)
        ensures
            stack@ == Seq::<(T, T)>::empty(),
            stack.wf(),
    {
        let stack = MinStack(Vec::new());
        assert(stack@ =~= entries_of(stack.values()));
        stack
    }

    /// The entries as a slice, from the bottom of the stack to its top.
    pub fn as_slice(&self) -> (entries: &[(T, T)])
        ensures
            entries@ == self@,
    {
        self.0.as_slice()
    }

    /// Removes every entry.
    pub fn clear(&mut self)
        ensures
            final(self)@ == Seq::<(T, T)>::empty(),
            final(self).wf(),
    {
        self.0.clear();
        assert(self@ =~= entries_of(self.values()));
    }

    /// Creates an empty stack with room for at least `capacity` entries.
    pub fn with_capacity(capacity: usize) -> (stack: MinStack<T>)
        ensures
            stack@ == Seq::<(T, T)>::empty(),
            stack.wf(),
    {
        let stack = MinStack(Vec::with_capacity(capacity));
        assert(stack@ =~= entries_of(stack.values()));
        stack
    }

    /// Makes room for at least `additional` more entries; the entries stay
    /// as they are.
    pub fn reserve(&mut self, additional: usize)
        ensures
            final(self)@ == old(self)@,
    {
        self.0.reserve(additional)
    }

    /// The number of entries the stack can hold without reallocating.
    pub fn capacity(&self) -> (capacity: usize)
        ensures
            capacity >= self@.len(),
    {
        vec_capacity(&self.0)
    }

    /// Removes the top entry and returns its value, or returns `None` and
    /// changes nothing if the stack is empty.
    pub fn pop(&mut self) -> (value: Option<T>)
        ensures
            value == old(self).peek_spec(),
            final(self)@ == popped(old(self)@),
            old(self).wf() ==> final(self).wf(),
    {
        proof {
            if self.wf() {
                lemma_popped_keeps_wf(self@);
            }
        }
        match self.0.pop() {
            Some(item) => Some(item.0),
            None => None,
        }
    }

    /// Whether the stack holds no entry.
    pub fn is_empty(&self) -> (empty: bool)
        ensures
            empty == (self@.len() == 0),
    {
        self.0.is_empty()
    }

    /// The number of entries.
    pub fn len(&self) -> (len: usize)
        ensures
            len == self@.len(),
    {
        self.0.len()
    }
}

impl<T: Clone + Ord> MinStack<T> {
    /// The running minimum on top of the stack, or `None` if the stack is
    /// empty. On a well-formed stack that is the minimum of its values.
    pub fn min(&self) -> (min: Option<T>)
        requires
            clones_exactly::<T>(),
        ensures
            min == self.min_spec(),
            self.wf() && self@.len() > 0 ==> min == Some(minimum(self.values())),
    {
        match self.0.last() {
            Some(item) => {
                let min = item.1.clone();
                assert(cloned(item.1, min));
                assert(self.values().take(self@.len() - 1 + 1) =~= self.values());
                Some(min)
            },
            None => None,
        }
    }

    /// The value on top of the stack, or `None` if it is empty.
    pub fn peek(&self) -> (top: Option<T>)
        requires
            clones_exactly::<T>(),
        ensures
            top == self.peek_spec(),
    {
        match self.0.last() {
            Some(item) => {
                let top = item.0.clone();
                assert(cloned(item.0, top));
                Some(top)
            },
            None => None,
        }
    }

    /// Puts `item` on top of the stack, beside the lesser of `item` and the
    /// running minimum that was on top. On a well-formed stack that is the
    /// minimum of the values that the stack then holds.
    pub fn push(&mut self, item: T)
        requires
            lawful::<T>(),
        ensures
            final(self)@ == pushed(old(self)@, item),
            final(self).values() == old(self).values().push(item),
            old(self).wf() ==> final(self).wf(),
    {
        proof {
            lemma_pushed_keeps_wf(self@, item);
            lemma_obeys::<T>();
        }
        if !self.0.is_empty() {
            let curr_min = self.min().unwrap();
            let copy = item.clone();
            assert(cloned(item, copy));
            let new_min = Ord::min(curr_min, copy);
            self.0.push((item, new_min));
        } else {
            let copy = item.clone();
            assert(cloned(item, copy));
            self.0.push((copy, item));
        }
    }

    /// Builds a stack by pushing the items of `vec` in order.
    pub fn from(vec: Vec<T>) -> (stack: Self)
        requires
            lawful::<T>(),
        ensures
            stack@ == pushed_all(Seq::empty(), vec@),
            stack.values() == vec@,
            stack.wf(),
    {
        let mut stack = MinStack::new();
        let ghost all = vec@;
        for item in it: vec
            invariant
                lawful::<T>(),
                it.seq() == all,
                stack@ == pushed_all(Seq::empty(), all.take(it.index() as int)),
        {
            stack.push(item);
            assert(all.take(it.index() + 1).drop_last() =~= all.take(it.index() as int));
        }
        proof {
            assert(all.take(all.len() as int) =~= all);
            lemma_pushed_all_is_entries_of(Seq::empty(), all);
            assert(Seq::<T>::empty() + all =~= all);
        }
        stack
    }

    /// Moves the values of `other` onto this stack, bottom first, and leaves
    /// `other` empty. The running minimums are computed anew.
    pub fn append(&mut self, other: &mut Self)
        requires
            old(self).wf(),
            lawful::<T>(),
        ensures
            final(self)@ == pushed_all(old(self)@, old(other).values()),
            final(self).values() == old(self).values() + old(other).values(),
            old(self).wf() ==> final(self).wf() && final(self)@ == pushed_all(
                Seq::empty(),
                old(self).values() + old(other).values(),
            ),
            final(other)@ == Seq::<(T, T)>::empty(),
            final(other).wf(),
    {
        let mut taken: Vec<(T, T)> = Vec::new();
        core::mem::swap(&mut other.0, &mut taken);
        assert(other@ =~= entries_of(other.values()));
        let ghost moved = values_of(taken@);
        for item in it: taken
            invariant
                lawful::<T>(),
                values_of(it.seq()) == moved,
                moved == old(other).values(),
                self@ == pushed_all(old(self)@, moved.take(it.index() as int)),
                other@ == Seq::<(T, T)>::empty(),
        {
            self.push(item.0);
            assert(moved.take(it.index() + 1).drop_last() =~= moved.take(it.index() as int));
        }
        proof {
            assert(moved.take(moved.len() as int) =~= moved);
            lemma_pushed_all_values(old(self)@, moved);
            if old(self).wf() {
                lemma_pushed_all_is_entries_of(old(self)@, moved);
            }
        }
    }
}

impl<T: Ord> vstd::std_specs::core::IndexSpecImpl<usize> for MinStack<T> {
    open spec fn index_req(&self, index: &usize) -> bool {
        *index < self@.len()
    }
}

impl<T: Ord> Index<usize> for MinStack<T> {
    type Output = (T, T);

    /// The entry at `index`, counted from the bottom of the stack.
    fn index(&self, index: usize) -> (entry: &(T, T))
        ensures
            *entry == self@[index as int],
    {
        &self.0[index]
    }
}

impl<T: Ord> Deref for MinStack<T> {
    type Target = [(T, T)];

    /// The entries as a slice, from the bottom of the stack to its top.
    fn deref(&self) -> (entries: &[(T, T)])
        ensures
            entries@ == self@,
    {
        self.0.as_slice()
    }
}

impl<T: Ord> DerefMut for MinStack<T> {
    /// The entries as a slice that can be written to. What is written
    /// stays in the stack, so a caller that changes an entry answers for
    /// the running minimums.
    fn deref_mut(&mut self) -> (entries: &mut [(T, T)])
        ensures
            entries@ == old(self)@,
            final(self)@ == final(entries)@,
    {
        self.0.as_mut_slice()
    }
}

impl<T: Ord> IntoIterator for MinStack<T> {
    type Item = (T, T);

    type IntoIter = std::vec::IntoIter<(T, T)>;

    /// An iterator over the entries, from the bottom of the stack to its
    /// top.
    fn into_iter(self) -> (entries: std::vec::IntoIter<(T, T)>)
        ensures
            entries.remaining() == self@,
    {
        self.0.into_iter()
    }
}

impl<T: Ord> Default for MinStack<T> {
    /// The empty stack.
    fn default() -> (stack: Self)
        ensures
            stack@ == Seq::<(T, T)>::empty(),
            stack.wf(),
    {
        MinStack::new()
    }
}

/// `Vec::capacity`: the number of elements the vector can hold without
/// reallocating. The number depends on the allocator; all that is claimed
/// is that the elements the vector holds fit in it.
#[verifier::external_body]
fn vec_capacity<T>(v: &Vec<T>) -> (capacity: usize)
    ensures
        capacity >= v@.len(),
{
    v.capacity()
}

/// What `lawful` gives the comparison that `push` makes.
proof fn lemma_obeys<T: Ord + Clone>()
    requires
        lawful::<T>(),
    ensures
        T::obeys_cmp_spec(),
{
    reveal(vstd::laws_cmp::obeys_cmp_ord);
}

/// The entries of a prefix of the values are a prefix of the entries.
pub proof fn lemma_entries_of_prefix<T: Ord>(values: Seq<T>, n: int)
    requires
        0 <= n <= values.len(),
    ensures
        entries_of(values.take(n)) == entries_of(values).take(n),
{
    assert forall|i: int| 0 <= i < n implies #[trigger] entries_of(values.take(n))[i]
        == entries_of(values)[i] by {
        assert(values.take(n).take(i + 1) =~= values.take(i + 1));
    }
    assert(entries_of(values.take(n)) =~= entries_of(values).take(n));
}

/// One more value adds one entry, and leaves the entries below as they are.
pub proof fn lemma_entries_of_push<T: Ord>(values: Seq<T>, item: T)
    ensures
        entries_of(values.push(item)) == entries_of(values).push(
            (item, minimum(values.push(item))),
        ),
{
    let longer = values.push(item);
    lemma_entries_of_prefix(longer, values.len() as int);
    assert(longer.take(values.len() as int) =~= values);
    assert(longer.take(longer.len() as int) =~= longer);
    assert(entries_of(longer) =~= entries_of(values).push((item, minimum(longer))));
}

/// A push adds its item to the values, and keeps a well-formed stack
/// well-formed: the running minimum it stores is the minimum of the values.
pub proof fn lemma_pushed_keeps_wf<T: Ord>(entries: Seq<(T, T)>, item: T)
    ensures
        values_of(pushed(entries, item)) == values_of(entries).push(item),
        entries == entries_of(values_of(entries)) ==> pushed(entries, item) == entries_of(
            values_of(entries).push(item),
        ),
{
    let values = values_of(entries);
    assert(values_of(pushed(entries, item)) =~= values.push(item));
    if entries == entries_of(values) {
        lemma_entries_of_push(values, item);
        assert(values.push(item).drop_last() =~= values);
        if entries.len() > 0 {
            assert(values.take(entries.len() - 1 + 1) =~= values);
        }
    }
}

/// A pop keeps a well-formed stack well-formed.
pub proof fn lemma_popped_keeps_wf<T: Ord>(entries: Seq<(T, T)>)
    requires
        entries == entries_of(values_of(entries)),
    ensures
        popped(entries) == entries_of(values_of(popped(entries))),
{
    if entries.len() > 0 {
        let values = values_of(entries);
        lemma_entries_of_prefix(values, entries.len() - 1);
        assert(values.take(entries.len() - 1) =~= values_of(entries.drop_last()));
        assert(entries_of(values).take(entries.len() - 1) =~= entries.drop_last());
    }
}

/// Pushes in a row add their items to the values in order.
pub proof fn lemma_pushed_all_values<T: Ord>(entries: Seq<(T, T)>, items: Seq<T>)
    ensures
        values_of(pushed_all(entries, items)) == values_of(entries) + items,
    decreases items.len(),
{
    if items.len() == 0 {
        assert(values_of(entries) + items =~= values_of(entries));
    } else {
        lemma_pushed_all_values(entries, items.drop_last());
        lemma_pushed_keeps_wf(pushed_all(entries, items.drop_last()), items.last());
        assert((values_of(entries) + items.drop_last()).push(items.last()) =~= values_of(entries)
            + items);
    }
}

/// Pushing `items` onto a well-formed stack gives the stack that pushing
/// its values and then `items` onto an empty stack gives, whose entries
/// each carry the minimum of the values up to and including them.
pub proof fn lemma_pushed_all_is_entries_of<T: Ord>(entries: Seq<(T, T)>, items: Seq<T>)
    requires
        entries == entries_of(values_of(entries)),
    ensures
        pushed_all(entries, items) == entries_of(values_of(entries) + items),
        pushed_all(entries, items) == pushed_all(Seq::empty(), values_of(entries) + items),
    decreases items.len(),
{
    let values = values_of(entries);
    assert(pushed_all(entries, items) == entries_of(values + items)) by {
        lemma_pushed_all_values(entries, items);
        if items.len() == 0 {
            assert(values + items =~= values);
        } else {
            let before = pushed_all(entries, items.drop_last());
            lemma_pushed_all_is_entries_of(entries, items.drop_last());
            lemma_pushed_all_values(entries, items.drop_last());
            lemma_pushed_keeps_wf(before, items.last());
            assert((values + items.drop_last()).push(items.last()) =~= values + items);
        }
    }
    lemma_pushed_all_from_empty(values + items);
}

/// Pushing `values` onto an empty stack gives each of them with the minimum
/// of the values up to and including it.
pub proof fn lemma_pushed_all_from_empty<T: Ord>(values: Seq<T>)
    ensures
        pushed_all(Seq::empty(), values) == entries_of(values),
    decreases values.len(),
{
    let empty = Seq::<(T, T)>::empty();
    assert(values_of(empty) =~= Seq::<T>::empty());
    assert(empty =~= entries_of(values_of(empty)));
    if values.len() == 0 {
        assert(entries_of(values) =~= empty);
    } else {
        lemma_pushed_all_from_empty(values.drop_last());
        assert(values_of(entries_of(values.drop_last())) =~= values.drop_last());
        lemma_pushed_keeps_wf(entries_of(values.drop_last()), values.last());
        assert(values.drop_last().push(values.last()) =~= values);
    }
}

/// No value is greater than itself.
pub proof fn lemma_at_most_reflexive<T: Ord>(a: T)
    requires
        obeys_cmp::<T>(),
    ensures
        at_most(a, a),
{
    reveal(vstd::laws_cmp::obeys_cmp_ord);
    reveal(vstd::laws_cmp::obeys_partial_cmp_spec_properties);
    assert(a.partial_cmp_spec(&a) == Some(a.cmp_spec(&a)));
}

/// `at_most` is transitive.
pub proof fn lemma_at_most_transitive<T: Ord>(a: T, b: T, c: T)
    requires
        obeys_cmp::<T>(),
        at_most(a, b),
        at_most(b, c),
    ensures
        at_most(a, c),
{
    reveal(vstd::laws_cmp::obeys_cmp_ord);
    reveal(vstd::laws_cmp::obeys_cmp_partial_ord);
    reveal(vstd::laws_cmp::obeys_partial_cmp_spec_properties);
    reveal(vstd::laws_eq::obeys_eq_spec_properties);
    assert(a.partial_cmp_spec(&b) == Some(a.cmp_spec(&b)));
    assert(b.partial_cmp_spec(&a) == Some(b.cmp_spec(&a)));
    assert(b.partial_cmp_spec(&c) == Some(b.cmp_spec(&c)));
    assert(c.partial_cmp_spec(&b) == Some(c.cmp_spec(&b)));
    assert(a.partial_cmp_spec(&c) == Some(a.cmp_spec(&c)));
    assert(c.partial_cmp_spec(&a) == Some(c.cmp_spec(&a)));
}

/// The lesser of two values is one of them, and neither is smaller.
pub proof fn lemma_lesser<T: Ord>(a: T, b: T)
    requires
        obeys_cmp::<T>(),
    ensures
        lesser(a, b) == a || lesser(a, b) == b,
        at_most(lesser(a, b), a),
        at_most(lesser(a, b), b),
{
    reveal(vstd::laws_cmp::obeys_cmp_ord);
    reveal(vstd::laws_cmp::obeys_partial_cmp_spec_properties);
    lemma_at_most_reflexive(a);
    lemma_at_most_reflexive(b);
    assert(a.partial_cmp_spec(&b) == Some(a.cmp_spec(&b)));
    assert(b.partial_cmp_spec(&a) == Some(b.cmp_spec(&a)));
}

/// The minimum that the stack keeps is the true minimum of its values: it
/// is one of them, and none of them is smaller.
pub proof fn lemma_minimum_is_least<T: Ord>(s: Seq<T>)
    requires
        obeys_cmp::<T>(),
        s.len() > 0,
    ensures
        s.contains(minimum(s)),
        forall|i: int| 0 <= i < s.len() ==> at_most(minimum(s), #[trigger] s[i]),
    decreases s.len(),
{
    if s.len() == 1 {
        lemma_at_most_reflexive(s[0]);
    } else {
        let rest = s.drop_last();
        lemma_minimum_is_least(rest);
        lemma_lesser(minimum(rest), s.last());
        let k = choose|k: int| 0 <= k < rest.len() && rest[k] == minimum(rest);
        assert(s[k] == minimum(rest));
        assert forall|i: int| 0 <= i < s.len() implies at_most(minimum(s), #[trigger] s[i]) by {
            if i < rest.len() {
                assert(rest[i] == s[i]);
                lemma_at_most_transitive(minimum(s), minimum(rest), s[i]);
            }
        }
    }
}

/// After each push in a row of pushes onto an empty stack, the minimum
/// kept beside the value pushed is the least of the values pushed so far.
pub proof fn lemma_running_minimum<T: Ord>(values: Seq<T>, i: int)
    requires
        obeys_cmp::<T>(),
        0 <= i < values.len(),
    ensures
        entries_of(values)[i].0 == values[i],
        values.take(i + 1).contains(entries_of(values)[i].1),
        forall|j: int| 0 <= j <= i ==> at_most(entries_of(values)[i].1, #[trigger] values[j]),
{
    let pushed = values.take(i + 1);
    lemma_minimum_is_least(pushed);
    assert forall|j: int| 0 <= j <= i implies at_most(
        entries_of(values)[i].1,
        #[trigger] values[j],
    ) by {
        assert(pushed[j] == values[j]);
    }
}

/// After any row of pushes onto an empty stack, the running minimum on top
/// is the true minimum of the values pushed: it is one of them, and none of
/// them is smaller.
pub proof fn lemma_min_after_pushes<T: Ord>(values: Seq<T>)
    requires
        obeys_cmp::<T>(),
        values.len() > 0,
    ensures
        pushed_all(Seq::empty(), values).len() == values.len(),
        values.contains(pushed_all(Seq::empty(), values).last().1),
        forall|j: int|
            0 <= j < values.len() ==> at_most(
                pushed_all(Seq::empty(), values).last().1,
                #[trigger] values[j],
            ),
{
    lemma_pushed_all_from_empty(values);
    lemma_minimum_is_least(values);
    assert(values.take(values.len() - 1 + 1) =~= values);
}

} // verus!
