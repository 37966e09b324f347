//! Iteration that consumes the container and hands out each element once, in order.

use vstd::prelude::*;
use crate::storage::LocalStorageVec;

verus! {

/// The elements of a container that are still to come, owned by the iterator.
///
/// An element that has been handed out leaves a default value in its slot, so that nothing
/// is owned twice.
pub struct LocalStorageVecIter<T, const N: usize> {
    vec: LocalStorageVec<T, N>,
    counter: usize,
}

impl<T, const N: usize> LocalStorageVecIter<T, N> {
    /// The position of the next element lies within the live elements.
    #[verifier::type_invariant]
    spec fn inv(&self) -> bool {
        self.vec.wf() && self.counter <= self.vec@.len()
    }
}

impl<T: Default, const N: usize> View for LocalStorageVecIter<T, N> {
    type V = Seq<T>;

    /// The elements not yet handed out, in the order in which they will come.
    closed spec fn view(&self) -> Seq<T> {
        self.vec@.skip(self.counter as int)
    }
}

impl<T: Default, const N: usize> std::iter::IntoIterator for LocalStorageVec<T, N> {
    type Item = T;

    type IntoIter = LocalStorageVecIter<T, N>;

    /// Turns the container into an iterator over all of its live elements.
    ///
    /// A trait method takes no precondition, so this one returns for every value: of a
    /// container that is not well-formed it takes the whole inline buffer.
    fn into_iter(self) -> (iter: LocalStorageVecIter<T, N>)
        ensures
            self.wf() ==> iter@ == self@,
    {
        let vec = match self {
            LocalStorageVec::Stack { buf, len } => {
                let live = if len <= N {
                    len
                } else {
                    N
                };
                LocalStorageVec::Stack { buf, len: live }
            },
            LocalStorageVec::Heap(v) => LocalStorageVec::Heap(v),
        };
        LocalStorageVecIter { vec, counter: 0 }
    }
}

impl<T: Default, const N: usize> std::iter::Iterator for LocalStorageVecIter<T, N> {
    type Item = T;

    /// Hands out the next element, or `None` once all have been handed out.
    fn next(&mut self) -> (item: Option<T>)
        ensures
            old(self)@.len() == 0 ==> item is None && final(self)@ == old(self)@,
            old(self)@.len() > 0 ==> item == Some(old(self)@.first()) && final(self)@ == old(
                self,
            )@.drop_first(),
    {
        proof {
            use_type_invariant(&*self);
        }
        if self.counter < self.vec.len() {
            let mut item = T::default();
            core::mem::swap(&mut item, self.vec.index_mut(self.counter));
            self.counter += 1;
            Some(item)
        } else {
            None
        }
    }
}

impl<T: Default, const N: usize> vstd::std_specs::iter::IteratorSpecImpl for LocalStorageVecIter<T, N> {
    /// The iterator ends: after its last element it returns `None`, and keeps doing so.
    open spec fn obeys_prophetic_iter_laws(&self) -> bool {
        true
    }

    /// What is still to come is the view.
    open spec fn remaining(&self) -> Seq<T> {
        self@
    }

    open spec fn will_return_none(&self) -> bool {
        true
    }

    /// Each call of `next` that hands out an element leaves one element less.
    open spec fn decrease(&self) -> Option<nat> {
        Some(self@.len())
    }

    open spec fn initial_value_relation(&self, init: &Self) -> bool {
        init@ == self@
    }

    open spec fn peek(&self, index: int) -> Option<T> {
        if 0 <= index < self@.len() {
            Some(self@[index])
        } else {
            None
        }
    }
}

} // verus!
