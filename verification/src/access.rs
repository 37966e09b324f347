//! Reading and writing a container in place: by position, by range, and as one slice.
//!
//! All of these go by the view alone, so they behave the same over both storages.

use vstd::prelude::*;
use crate::storage::LocalStorageVec;

verus! {

/// `core::ops::RangeTo`, the type of `..end`: a struct with the one public field `end`.
#[verifier::external_type_specification]
#[verifier::reject_recursive_types(Idx)]
pub struct ExRangeTo<Idx>(core::ops::RangeTo<Idx>);

/// `core::ops::RangeFrom`, the type of `start..`: a struct with the one public field `start`.
#[verifier::external_type_specification]
#[verifier::reject_recursive_types(Idx)]
pub struct ExRangeFrom<Idx>(core::ops::RangeFrom<Idx>);

impl<T, const N: usize> std::ops::Deref for LocalStorageVec<T, N> {
    type Target = [T];

    /// The live elements as one slice.
    ///
    /// A trait method takes no precondition, so this one returns for every value: of a
    /// container that is not well-formed it yields the whole inline buffer.
    fn deref(&self) -> (r: &[T])
        ensures
            self.wf() ==> r@ == self@,
    {
        match self {
            LocalStorageVec::Stack { buf, len } => {
                let whole = buf.as_slice();
                if *len <= N {
                    vstd::slice::slice_subrange(whole, 0, *len)
                } else {
                    whole
                }
            },
            LocalStorageVec::Heap(v) => v.as_slice(),
        }
    }
}

impl<T, const N: usize> std::ops::DerefMut for LocalStorageVec<T, N> {
    /// The live elements as one slice through which they can be rewritten in place.
    ///
    /// The container ends up holding what the slice ends up holding.
    fn deref_mut(&mut self) -> (r: &mut [T])
        ensures
            old(self).wf() ==> {
                &&& r@ == old(self)@
                &&& final(self).wf()
                &&& final(self).is_inline() == old(self).is_inline()
                &&& final(self)@ == final(r)@
                &&& old(self).is_inline() ==> final(self)@.len() == old(self)@.len()
            },
    {
        match self {
            LocalStorageVec::Stack { buf, len } => {
                let whole: &mut [T] = buf;
                let cut = if *len <= N {
                    *len
                } else {
                    N
                };
                // The buffer has N slots in the end as it has now, and the spare ones stay as
                // they are, so the live part keeps its length too.
                let ghost in_the_end = final(whole)@;
                assert(in_the_end.len() == N);
                let (live, _spare) = whole.split_at_mut(cut);
                assert(final(live)@.len() == cut);
                live
            },
            LocalStorageVec::Heap(v) => v.as_mut_slice(),
        }
    }
}

impl<T, const N: usize> std::convert::AsRef<[T]> for LocalStorageVec<T, N> {
    /// The live elements as one slice, as `deref` gives them.
    fn as_ref(&self) -> (r: &[T])
        ensures
            self.wf() ==> r@ == self@,
    {
        std::ops::Deref::deref(self)
    }
}

impl<T, const N: usize> std::convert::AsMut<[T]> for LocalStorageVec<T, N> {
    /// The live elements as one slice through which they can be rewritten in place, as
    /// `deref_mut` gives them.
    fn as_mut(&mut self) -> (r: &mut [T])
        ensures
            old(self).wf() ==> {
                &&& r@ == old(self)@
                &&& final(self).wf()
                &&& final(self).is_inline() == old(self).is_inline()
                &&& final(self)@ == final(r)@
                &&& old(self).is_inline() ==> final(self)@.len() == old(self)@.len()
            },
    {
        std::ops::DerefMut::deref_mut(self)
    }
}

impl<T, const N: usize> LocalStorageVec<T, N> {
    /// The elements at the positions `start..end` as a slice through which they can be
    /// rewritten in place. The elements outside the range stay as they are.
    pub fn range_mut(&mut self, start: usize, end: usize) -> (r: &mut [T])
        requires
            old(self).wf(),
            start <= end <= old(self)@.len(),
        ensures
            r@ == old(self)@.subrange(start as int, end as int),
            final(self).wf(),
            final(self).is_inline() == old(self).is_inline(),
            final(self)@ == old(self).prefix(start as int) + final(r)@ + old(self).suffix(
                end as int,
            ),
            old(self).is_inline() ==> final(self)@.len() == old(self)@.len(),
    {
        let live = std::ops::DerefMut::deref_mut(self);
        let (_before, rest) = live.split_at_mut(start);
        let (range, _behind) = rest.split_at_mut(end - start);
        range
    }

    /// The first `end` elements as a slice through which they can be rewritten in place.
    pub fn prefix_mut(&mut self, end: usize) -> (r: &mut [T])
        requires
            old(self).wf(),
            end <= old(self)@.len(),
        ensures
            r@ == old(self).prefix(end as int),
            final(self).wf(),
            final(self).is_inline() == old(self).is_inline(),
            final(self)@ == final(r)@ + old(self).suffix(end as int),
            old(self).is_inline() ==> final(self)@.len() == old(self)@.len(),
    {
        self.range_mut(0, end)
    }

    /// The elements from position `start` on as a slice through which they can be
    /// rewritten in place.
    pub fn suffix_mut(&mut self, start: usize) -> (r: &mut [T])
        requires
            old(self).wf(),
            start < old(self)@.len(),
        ensures
            r@ == old(self).suffix(start as int),
            final(self).wf(),
            final(self).is_inline() == old(self).is_inline(),
            final(self)@ == old(self).prefix(start as int) + final(r)@,
            old(self).is_inline() ==> final(self)@.len() == old(self)@.len(),
    {
        let end = std::ops::Deref::deref(self).len();
        self.range_mut(start, end)
    }

    /// The element at position `index`, for rewriting in place.
    pub fn index_mut(&mut self, index: usize) -> (r: &mut T)
        requires
            old(self).wf(),
            index < old(self)@.len(),
        ensures
            *r == old(self)@[index as int],
            final(self).wf(),
            final(self).is_inline() == old(self).is_inline(),
            final(self)@ == old(self)@.update(index as int, *final(r)),
        no_unwind
    {
        match self {
            LocalStorageVec::Stack { buf, len } => &mut buf[index],
            LocalStorageVec::Heap(v) => &mut v[index],
        }
    }
}

impl<T, const N: usize> std::ops::Index<usize> for LocalStorageVec<T, N> {
    type Output = T;

    /// The element at position `index`.
    fn index(&self, index: usize) -> (r: &T)
        ensures
            *r == self[index as int],
    {
        match self {
            LocalStorageVec::Stack { buf, len } => &buf[index],
            LocalStorageVec::Heap(v) => &v[index],
        }
    }
}

impl<T, const N: usize> vstd::std_specs::core::IndexSpecImpl<usize> for LocalStorageVec<T, N> {
    /// A position is valid when it is below the live length.
    open spec fn index_req(&self, index: &usize) -> bool {
        self.wf() && *index < self@.len()
    }
}

impl<T, const N: usize> std::ops::Index<std::ops::RangeTo<usize>> for LocalStorageVec<T, N> {
    type Output = [T];

    /// The first `index.end` elements.
    fn index(&self, index: std::ops::RangeTo<usize>) -> (r: &[T])
        ensures
            r@ == self.prefix(index.end as int),
    {
        vstd::slice::slice_subrange(std::ops::Deref::deref(self), 0, index.end)
    }
}

impl<T, const N: usize> vstd::std_specs::core::IndexSpecImpl<std::ops::RangeTo<usize>> for LocalStorageVec<T, N> {
    /// A prefix is valid when it ends within the live elements.
    open spec fn index_req(&self, index: &std::ops::RangeTo<usize>) -> bool {
        self.wf() && index.end <= self@.len()
    }
}

impl<T, const N: usize> std::ops::Index<std::ops::RangeFrom<usize>> for LocalStorageVec<T, N> {
    type Output = [T];

    /// The elements from position `index.start` on.
    fn index(&self, index: std::ops::RangeFrom<usize>) -> (r: &[T])
        ensures
            r@ == self.suffix(index.start as int),
    {
        let live = std::ops::Deref::deref(self);
        vstd::slice::slice_subrange(live, index.start, live.len())
    }
}

impl<T, const N: usize> vstd::std_specs::core::IndexSpecImpl<std::ops::RangeFrom<usize>> for LocalStorageVec<T, N> {
    /// A suffix is valid when it starts at a live element.
    open spec fn index_req(&self, index: &std::ops::RangeFrom<usize>) -> bool {
        self.wf() && index.start < self@.len()
    }
}

impl<T, const N: usize> std::ops::Index<std::ops::Range<usize>> for LocalStorageVec<T, N> {
    type Output = [T];

    /// The elements at the positions `index.start..index.end`.
    fn index(&self, index: std::ops::Range<usize>) -> (r: &[T])
        ensures
            r@ == self@.subrange(index.start as int, index.end as int),
    {
        vstd::slice::slice_subrange(std::ops::Deref::deref(self), index.start, index.end)
    }
}

impl<T, const N: usize> vstd::std_specs::core::IndexSpecImpl<std::ops::Range<usize>> for LocalStorageVec<T, N> {
    /// A range is valid when it is not reversed and ends within the live elements.
    open spec fn index_req(&self, index: &std::ops::Range<usize>) -> bool {
        self.wf() && index.start <= index.end <= self@.len()
    }
}

} // verus!
