//! The operations that change a container: push, pop, insert, remove and clear.
//!
//! Each contract says what becomes of the view and of the storage, and names the step of the
//! model that the operation takes.

use vstd::prelude::*;
use crate::model::Step;
use crate::storage::LocalStorageVec;

verus! {

/// Moves the slots `index..len` of `buf` one place towards the end. The slot at `index`
/// keeps its value; the slots outside `index..=len` are untouched.
fn shift_right<T: Copy, const N: usize>(buf: &mut [T; N], index: usize, len: usize)
    requires
        index <= len < N,
    ensures
        forall|k: int| 0 <= k <= index ==> final(buf)@[k] == old(buf)@[k],
        forall|k: int| index < k <= len ==> final(buf)@[k] == old(buf)@[k - 1],
        forall|k: int| len < k < N ==> final(buf)@[k] == old(buf)@[k],
{
    let ghost before = buf@;
    let mut j: usize = len;
    while j > index
        invariant
            index <= j <= len < N,
            forall|k: int| 0 <= k <= j ==> buf@[k] == before[k],
            forall|k: int| j < k <= len ==> buf@[k] == before[k - 1],
            forall|k: int| len < k < N ==> buf@[k] == before[k],
        decreases j,
    {
        buf[j] = buf[j - 1];
        j -= 1;
    }
}

/// Moves the slots `index + 1..len` of `buf` one place towards the front, over the slot at
/// `index`. The slots outside `index..len - 1` are untouched.
fn shift_left<T: Copy, const N: usize>(buf: &mut [T; N], index: usize, len: usize)
    requires
        index < len <= N,
    ensures
        forall|k: int| 0 <= k < index ==> final(buf)@[k] == old(buf)@[k],
        forall|k: int| index <= k < len - 1 ==> final(buf)@[k] == old(buf)@[k + 1],
        forall|k: int| len - 1 <= k < N ==> final(buf)@[k] == old(buf)@[k],
{
    let ghost before = buf@;
    let mut j: usize = index;
    while j + 1 < len
        invariant
            index <= j < len <= N,
            forall|k: int| 0 <= k < index ==> buf@[k] == before[k],
            forall|k: int| index <= k < j ==> buf@[k] == before[k + 1],
            forall|k: int| j <= k < N ==> buf@[k] == before[k],
        decreases len - j,
    {
        buf[j] = buf[j + 1];
        j += 1;
    }
}

impl<T: Copy + Default, const N: usize> LocalStorageVec<T, N> {
    /// Whether the container is inline-backed with a free slot.
    fn has_room(&self) -> (fits: bool)
        requires
            self.wf(),
        ensures
            fits == self.shape().has_room(N as nat),
    {
        match self {
            Self::Stack { len, .. } => *len < N,
            Self::Heap(_) => false,
        }
    }

    /// Takes the live elements out as a vector and leaves an empty heap-backed container.
    fn take_live(&mut self) -> (v: Vec<T>)
        requires
            old(self).wf(),
        ensures
            v@ == old(self)@,
            final(self).wf(),
            !final(self).is_inline(),
            final(self)@ == Seq::<T>::empty(),
    {
        let mut taken = Self::Heap(Vec::new());
        core::mem::swap(self, &mut taken);
        match taken {
            Self::Stack { buf, len } => vstd::slice::slice_to_vec(
                vstd::slice::slice_subrange(buf.as_slice(), 0, len),
            ),
            Self::Heap(v) => v,
        }
    }

    /// Appends `item`. An inline-backed container with a free slot stays inline; a full one
    /// moves its elements to the heap first, and a heap-backed one stays on the heap.
    pub fn push(&mut self, item: T)
        requires
            old(self).wf(),
        ensures
            final(self).wf(),
            final(self)@ == old(self)@.push(item),
            final(self).is_inline() <==> old(self).is_inline() && old(self)@.len() < N,
            final(self).shape() =~= old(self).shape().after(N as nat, Step::Push(item)),
    {
        if self.has_room() {
            if let Self::Stack { buf, len } = self {
                buf[*len] = item;
                *len += 1;
            }
        } else {
            let mut v = self.take_live();
            v.push(item);
            *self = Self::Heap(v);
        }
    }

    /// Removes the last element and returns it, or returns `None` and changes nothing when
    /// the container is empty. The storage stays what it was.
    pub fn pop(&mut self) -> (item: Option<T>)
        requires
            old(self).wf(),
        ensures
            final(self).wf(),
            final(self).is_inline() == old(self).is_inline(),
            old(self)@.len() == 0 ==> item is None && final(self)@ == old(self)@,
            old(self)@.len() > 0 ==> item == Some(old(self)@.last()) && final(self)@ == old(
                self,
            )@.drop_last(),
            final(self).shape() =~= old(self).shape().after(N as nat, Step::Pop),
    {
        match self {
            Self::Stack { buf, len } => {
                if *len > 0 {
                    *len -= 1;
                    Some(buf[*len])
                } else {
                    None
                }
            },
            Self::Heap(v) => v.pop(),
        }
    }

    /// Puts `item` at position `index` and moves the elements from there on one place
    /// later. The storage changes as for `push`.
    pub fn insert(&mut self, index: usize, item: T)
        requires
            old(self).wf(),
            index <= old(self)@.len(),
        ensures
            final(self).wf(),
            final(self)@ == old(self)@.insert(index as int, item),
            final(self).is_inline() <==> old(self).is_inline() && old(self)@.len() < N,
            final(self).shape() =~= old(self).shape().after(
                N as nat,
                Step::Insert(index as int, item),
            ),
    {
        if self.has_room() {
            if let Self::Stack { buf, len } = self {
                shift_right(buf, index, *len);
                buf[index] = item;
                *len += 1;
            }
        } else {
            let mut v = self.take_live();
            v.insert(index, item);
            *self = Self::Heap(v);
        }
    }

    /// Takes out the element at position `index`, returns it, and moves the elements behind
    /// it one place earlier. The storage stays what it was.
    pub fn remove(&mut self, index: usize) -> (item: T)
        requires
            old(self).wf(),
            index < old(self)@.len(),
        ensures
            final(self).wf(),
            item == old(self)@[index as int],
            final(self)@ == old(self)@.remove(index as int),
            final(self).is_inline() == old(self).is_inline(),
            final(self).shape() =~= old(self).shape().after(N as nat, Step::Remove(index as int)),
    {
        match self {
            Self::Stack { buf, len } => {
                let item = buf[index];
                shift_left(buf, index, *len);
                *len -= 1;
                item
            },
            Self::Heap(v) => v.remove(index),
        }
    }

    /// Empties the container. The storage stays what it was.
    pub fn clear(&mut self)
        requires
            old(self).wf(),
        ensures
            final(self).wf(),
            final(self)@ == Seq::<T>::empty(),
            final(self).is_inline() == old(self).is_inline(),
            final(self).shape() =~= old(self).shape().after(N as nat, Step::Clear),
    {
        match self {
            Self::Stack { len, .. } => *len = 0,
            Self::Heap(v) => v.clear(),
        }
    }
}

} // verus!
