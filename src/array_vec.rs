use vstd::prelude::*;
use std::collections::VecDeque;
use crate::error::CapacityError;
use vstd::std_specs::iter::IteratorSpec;

verus! {

/// A vector that holds at most `N` values of type `T`.
///
/// Its contents are the sequence `self@`, whose length never exceeds `N`.
/// Every operation either succeeds in full or leaves the vector as it was.
/// The values live in a heap-allocated `Vec` that is never allowed to grow
/// past `N`; the storage is not inline.
pub struct ArrayVec<T, const N: usize> {
    items: Vec<T>,
}

impl<T, const N: usize> View for ArrayVec<T, N> {
    type V = Seq<T>;

    closed spec fn view(&self) -> Seq<T> {
        self.items@
    }
}

/// The first `k` values of `s`, or all of `s` where it is shorter.
pub open spec fn prefix<T>(s: Seq<T>, k: int) -> Seq<T> {
    if k < s.len() {
        s.subrange(0, k)
    } else {
        s
    }
}

impl<T, const N: usize> ArrayVec<T, N> {
    /// A well-formed vector holds at most `N` values. The contracts of the
    /// operations below keep it so.
    pub open spec fn wf(&self) -> bool {
        self@.len() <= N
    }

    /// An empty vector.
    pub fn new() -> (r: Self)
        ensures
            r@ == Seq::<T>::empty(),
    {
        ArrayVec { items: Vec::new() }
    }

    /// Whether the vector holds no value.
    pub fn is_empty(&self) -> (r: bool)
        ensures
            r == (self@.len() == 0),
    {
        self.items.len() == 0
    }

    /// Whether the vector holds `N` values, so that no more fit.
    pub fn is_full(&self) -> (r: bool)
        requires
            self.wf(),
        ensures
            r == (self@.len() == N),
            N == 0 ==> r,
    {
        self.items.len() == N
    }

    /// The number of values held.
    pub fn len(&self) -> (r: usize)
        requires
            self.wf(),
        ensures
            r == self@.len(),
            r <= N,
    {
        self.items.len()
    }

    /// The most values the vector can hold: `N`.
    pub fn capacity(&self) -> (r: usize)
        ensures
            r == N,
    {
        N
    }

    /// How many more values fit.
    pub fn remaining_capacity(&self) -> (r: usize)
        requires
            self.wf(),
        ensures
            r == N - self@.len(),
    {
        N - self.items.len()
    }

    /// Appends `item`; the caller guarantees that there is room for it.
    pub fn push_unchecked(&mut self, item: T)
        requires
            old(self)@.len() < N,
        ensures
            final(self)@ == old(self)@.push(item),
    {
        self.items.push(item);
    }

    /// Appends `item`, which must fit.
    pub fn push(&mut self, item: T)
        requires
            old(self)@.len() < N,
        ensures
            final(self)@ == old(self)@.push(item),
    {
        self.push_unchecked(item);
    }

    /// Appends `item` where there is room. On a full vector it returns the
    /// item inside a `CapacityError` and leaves the vector as it was.
    pub fn try_push(&mut self, item: T) -> (r: Result<(), CapacityError<T>>)
        ensures
            old(self)@.len() < N ==> r is Ok && final(self)@ == old(self)@.push(item),
            old(self)@.len() >= N ==> r is Err && r->Err_0.spec_element() == item
                && final(self)@ == old(self)@,
    {
        if self.items.len() < N {
            self.push_unchecked(item);
            Ok(())
        } else {
            Err(CapacityError::new(item))
        }
    }
    /// Inserts `item` at `index`, moving the values from `index` on one place
    /// to the right. The index must be at most the length, and the item must fit.
    pub fn insert(&mut self, index: usize, item: T)
        requires
            index <= old(self)@.len(),
            old(self)@.len() < N,
        ensures
            final(self)@ == old(self)@.insert(index as int, item),
    {
        self.items.insert(index, item);
    }

    /// Inserts `item` at `index` where there is room; the index must be at
    /// most the length. On a full vector it returns the item inside a
    /// `CapacityError` and leaves the vector as it was.
    pub fn try_insert(&mut self, index: usize, item: T) -> (r: Result<(), CapacityError<T>>)
        requires
            index <= old(self)@.len(),
        ensures
            old(self)@.len() < N ==> r is Ok && final(self)@ == old(self)@.insert(index as int, item),
            old(self)@.len() >= N ==> r is Err && r->Err_0.spec_element() == item
                && final(self)@ == old(self)@,
    {
        if self.items.len() >= N {
            return Err(CapacityError::new(item));
        }
        self.insert(index, item);
        Ok(())
    }

    /// Removes and returns the last value, or `None` on an empty vector.
    pub fn pop(&mut self) -> (r: Option<T>)
        ensures
            old(self)@.len() == 0 ==> r is None && final(self)@ == old(self)@,
            old(self)@.len() > 0 ==> r == Some(old(self)@.last())
                && final(self)@ == old(self)@.drop_last(),
    {
        self.items.pop()
    }

    /// Removes the value at `index` and returns it; the last value takes its
    /// place. Returns `None` and changes nothing where `index` is out of bounds.
    pub fn swap_pop(&mut self, index: usize) -> (r: Option<T>)
        ensures
            index >= old(self)@.len() ==> r is None && final(self)@ == old(self)@,
            index < old(self)@.len() ==> r == Some(old(self)@[index as int])
                && final(self)@ == old(self)@.update(index as int, old(self)@.last()).drop_last(),
    {
        if index >= self.items.len() {
            None
        } else {
            Some(self.items.swap_remove(index))
        }
    }

    /// Removes the value at `index`, which must be in bounds, and returns it;
    /// the last value takes its place.
    pub fn swap_remove(&mut self, index: usize) -> (r: T)
        requires
            index < old(self)@.len(),
        ensures
            r == old(self)@[index as int],
            final(self)@ == old(self)@.update(index as int, old(self)@.last()).drop_last(),
    {
        self.items.swap_remove(index)
    }

    /// Keeps the first `new_len` values and drops the rest; a `new_len` at or
    /// above the length changes nothing.
    pub fn truncate(&mut self, new_len: usize)
        ensures
            final(self)@ == prefix(old(self)@, new_len as int),
    {
        self.items.truncate(new_len);
    }

    /// Drops every value.
    pub fn clear(&mut self)
        ensures
            final(self)@ == Seq::<T>::empty(),
    {
        self.truncate(0);
    }

    /// Appends a copy of every value of `slice` where all of them fit. Where
    /// they do not, it appends none and returns a `CapacityError`.
    pub fn try_extend_from_slice(&mut self, slice: &[T]) -> (r: Result<(), CapacityError<()>>)
        where
            T: Copy,
        requires
            old(self).wf(),
        ensures
            old(self)@.len() + slice@.len() <= N ==> r is Ok && final(self)@ == old(self)@ + slice@,
            old(self)@.len() + slice@.len() > N ==> r is Err && final(self)@ == old(self)@,
    {
        if N - self.items.len() < slice.len() {
            return Err(CapacityError::new(()));
        }
        let ghost start = self@;
        let mut i: usize = 0;
        while i < slice.len()
            invariant
                i <= slice@.len(),
                start.len() + slice@.len() <= N,
                self@ == start + slice@.subrange(0, i as int),
            decreases slice@.len() - i,
        {
            self.push_unchecked(slice[i]);
            i = i + 1;
            proof {
                assert(slice@.subrange(0, i as int) == slice@.subrange(0, i - 1).push(slice@[i - 1]));
            }
        }
        proof {
            assert(slice@.subrange(0, i as int) == slice@);
        }
        Ok(())
    }

    /// Appends the values of `source` in order, as many as fit; the rest are
    /// dropped. It never fails.
    pub fn extend_from(&mut self, source: Vec<T>)
        requires
            old(self).wf(),
        ensures
            final(self)@ == old(self)@ + prefix(source@, N - old(self)@.len()),
    {
        let mut source = source;
        source.truncate(N - self.items.len());
        self.items.append(&mut source);
    }

    /// A vector of the first values of `source`, as many as fit.
    pub fn from_vec(source: Vec<T>) -> (r: Self)
        ensures
            r@ == prefix(source@, N as int),
    {
        let mut r = Self::new();
        r.extend_from(source);
        r
    }

    /// A view of the values held, in order.
    pub fn as_slice(&self) -> (r: &[T])
        ensures
            r@ == self@,
    {
        self.items.as_slice()
    }

    /// A mutable view of the values held; changing it changes the vector.
    pub fn as_mut_slice(&mut self) -> (r: &mut [T])
        ensures
            r@ == old(self)@,
            final(self)@ == final(r)@,
    {
        self.items.as_mut_slice()
    }

    /// An iterator over references to the values held, in order.
    pub fn iter(&self) -> (r: std::slice::Iter<'_, T>)
        ensures
            r.remaining() == self@.as_ref(),
    {
        broadcast use vstd::std_specs::slice::group_slice_axioms;
        self.items.as_slice().iter()
    }

    /// An iterator over mutable references to the values held, in order.
    pub fn iter_mut(&mut self) -> (r: std::slice::IterMut<'_, T>)
        ensures
            r.remaining().len() == old(self)@.len(),
            forall|i: int| 0 <= i < old(self)@.len() ==> *r.remaining()[i] == old(self)@[i],
    {
        slice_iter_mut(self.items.as_mut_slice())
    }

    /// The values held as an array, where the vector is full. Otherwise the
    /// vector comes back unchanged in `Err`.
    pub fn into_inner(self) -> (r: Result<[T; N], Self>)
        ensures
            self@.len() == N ==> r is Ok && r->Ok_0@ == self@,
            self@.len() != N ==> r is Err && r->Err_0@ == self@,
    {
        if self.items.len() != N {
            return Err(self);
        }
        let ArrayVec { items } = self;
        match array_from_vec::<T, N>(items) {
            Ok(a) => Ok(a),
            Err(items) => Err(ArrayVec { items }),
        }
    }

    /// Turns the vector into an iterator that hands its values out by value,
    /// from the front and from the back.
    pub fn into_iter(self) -> (r: IntoIter<T, N>)
        ensures
            r@ == self@,
    {
        let ArrayVec { items } = self;
        let mut items = items;
        let mut rest: VecDeque<T> = VecDeque::new();
        let ghost all = items@;
        while items.len() > 0
            invariant
                all == items@ + rest@,
            decreases items@.len(),
        {
            let x = items.pop().unwrap();
            rest.push_front(x);
        }
        IntoIter { rest }
    }
}

impl<T, const N: usize> Default for ArrayVec<T, N> {
    fn default() -> (r: Self)
        ensures
            r@ == Seq::<T>::empty(),
    {
        Self::new()
    }
}

impl<T, const N: usize> std::ops::Deref for ArrayVec<T, N> {
    type Target = [T];

    /// The values held, as a slice.
    fn deref(&self) -> (r: &[T])
        ensures
            r@ == self@,
    {
        self.items.as_slice()
    }
}

impl<T, const N: usize> std::ops::DerefMut for ArrayVec<T, N> {
    /// The values held, as a mutable slice.
    fn deref_mut(&mut self) -> (r: &mut [T])
        ensures
            r@ == old(self)@,
            final(self)@ == final(r)@,
    {
        self.items.as_mut_slice()
    }
}

impl<'a, T, const N: usize> IntoIterator for &'a ArrayVec<T, N> {
    type Item = &'a T;
    type IntoIter = std::slice::Iter<'a, T>;

    /// Walks references to the values held, in order.
    fn into_iter(self) -> (r: std::slice::Iter<'a, T>)
        ensures
            r.remaining() == self@.as_ref(),
    {
        self.iter()
    }
}

impl<'a, T, const N: usize> IntoIterator for &'a mut ArrayVec<T, N> {
    type Item = &'a mut T;
    type IntoIter = std::slice::IterMut<'a, T>;

    /// Walks mutable references to the values held, in order.
    fn into_iter(self) -> (r: std::slice::IterMut<'a, T>)
        ensures
            r.remaining().len() == old(self)@.len(),
            forall|i: int| 0 <= i < old(self)@.len() ==> *r.remaining()[i] == old(self)@[i],
    {
        self.iter_mut()
    }
}

/// Relies on `TryFrom<Vec<T>> for [T; N]`: a vector of exactly `N` values
/// becomes an array of those values in order; any other comes back in `Err`.
#[verifier::external_body]
fn array_from_vec<T, const N: usize>(v: Vec<T>) -> (r: Result<[T; N], Vec<T>>)
    ensures
        v@.len() == N ==> r is Ok && r->Ok_0@ == v@,
        v@.len() != N ==> r is Err && r->Err_0@ == v@,
{
    <[T; N]>::try_from(v)
}

#[verifier::external_type_specification]
#[verifier::external_body]
#[verifier::reject_recursive_types(T)]
pub struct ExIterMut<'a, T: 'a>(std::slice::IterMut<'a, T>);

/// Relies on `<[T]>::iter_mut`: an iterator over mutable references to the
/// values of `s`, one for each value, in order.
#[verifier::external_body]
fn slice_iter_mut<'a, T>(s: &'a mut [T]) -> (r: std::slice::IterMut<'a, T>)
    ensures
        r.remaining().len() == old(s)@.len(),
        forall|i: int| 0 <= i < old(s)@.len() ==> *r.remaining()[i] == old(s)@[i],
{
    s.iter_mut()
}

/// An iterator that owns the values of an `ArrayVec` and hands out those it
/// has not yet handed out, from either end. Dropping it drops exactly those.
pub struct IntoIter<T, const N: usize> {
    rest: VecDeque<T>,
}

impl<T, const N: usize> View for IntoIter<T, N> {
    type V = Seq<T>;

    /// The values not yet handed out, in order.
    closed spec fn view(&self) -> Seq<T> {
        self.rest@
    }
}

impl<T, const N: usize> IntoIter<T, N> {
    /// Hands out the first remaining value, or `None` when none is left.
    pub fn next(&mut self) -> (r: Option<T>)
        ensures
            old(self)@.len() == 0 ==> r is None && final(self)@ == old(self)@,
            old(self)@.len() > 0 ==> r == Some(old(self)@[0])
                && final(self)@ == old(self)@.drop_first(),
    {
        self.rest.pop_front()
    }

    /// Hands out the last remaining value, or `None` when none is left.
    pub fn next_back(&mut self) -> (r: Option<T>)
        ensures
            old(self)@.len() == 0 ==> r is None && final(self)@ == old(self)@,
            old(self)@.len() > 0 ==> r == Some(old(self)@.last())
                && final(self)@ == old(self)@.drop_last(),
    {
        self.rest.pop_back()
    }

    /// The number of values not yet handed out.
    pub fn len(&self) -> (r: usize)
        ensures
            r == self@.len(),
    {
        self.rest.len()
    }

    /// The exact number of values left, as a lower and an upper bound.
    pub fn size_hint(&self) -> (r: (usize, Option<usize>))
        ensures
            r.0 == self@.len(),
            r.1 == Some(self@.len() as usize),
    {
        let n = self.rest.len();
        (n, Some(n))
    }
}

} // verus!
