//! The container itself, its view and its construction.

use vstd::prelude::*;
use crate::model::Shape;

verus! {

/// A growable list that keeps up to `N` elements in a buffer of its own and moves to the
/// heap when it outgrows that buffer. It never moves back.
pub enum LocalStorageVec<T, const N: usize> {
    /// The first `len` slots of `buf` are the live elements.
    Stack { buf: [T; N], len: usize },
    /// The vector holds exactly the live elements.
    Heap(Vec<T>),
}

impl<T, const N: usize> View for LocalStorageVec<T, N> {
    type V = Seq<T>;

    /// The live elements, in order.
    open spec fn view(&self) -> Seq<T> {
        match *self {
            LocalStorageVec::Stack { buf, len } => buf@.take(len as int),
            LocalStorageVec::Heap(v) => v@,
        }
    }
}

/// Whether `x` is a value that `T::default()` may return.
pub open spec fn is_default<T: Default>(x: T) -> bool {
    call_ensures(T::default, (), x)
}

impl<T, const N: usize> LocalStorageVec<T, N> {
    /// The invariant of the type: the live length of the inline buffer is within its capacity.
    pub open spec fn wf(&self) -> bool {
        match *self {
            LocalStorageVec::Stack { buf, len } => len <= N,
            LocalStorageVec::Heap(v) => true,
        }
    }

    /// Whether the elements live in the inline buffer.
    pub open spec fn is_inline(&self) -> bool {
        *self is Stack
    }

    /// The element at position `i` of the view.
    pub open spec fn spec_index(&self, i: int) -> T
        recommends
            0 <= i < self@.len(),
    {
        self@[i]
    }

    /// The first `end` elements of the view.
    pub open spec fn prefix(&self, end: int) -> Seq<T>
        recommends
            0 <= end <= self@.len(),
    {
        self@.subrange(0, end)
    }

    /// The elements of the view from position `start` on.
    pub open spec fn suffix(&self, start: int) -> Seq<T>
        recommends
            0 <= start <= self@.len(),
    {
        self@.subrange(start, self@.len() as int)
    }

    /// The container as the model sees it.
    pub open spec fn shape(&self) -> Shape<T> {
        Shape { inline: self.is_inline(), items: self@ }
    }
}

/// `Vec::from` on an array moves the array's elements, in order, into a new vector.
pub assume_specification<T, const K: usize>[ <Vec<T> as From<[T; K]>>::from ](
    array: [T; K],
) -> (v: Vec<T>)
    ensures
        v@ == array@,
;

/// One default value, for the slot at position `_slot`.
fn default_slot<T: Default>(_slot: usize) -> (x: T)
    ensures
        is_default(x),
{
    T::default()
}

/// An array of default values. `core::array::from_fn` fills each slot with what its argument
/// returns for that slot's position.
#[verifier::external_body]
fn default_slots<T: Default, const M: usize>() -> (buf: [T; M])
    ensures
        forall|i: int| 0 <= i < M ==> is_default(#[trigger] buf@[i]),
{
    core::array::from_fn(default_slot::<T>)
}

impl<T, const N: usize> From<Vec<T>> for LocalStorageVec<T, N> {
    /// Wraps `v` as it is: the result is heap-backed whatever the length of `v`.
    fn from(v: Vec<T>) -> (r: Self)
        ensures
            r == LocalStorageVec::<T, N>::Heap(v),
            r.wf(),
            !r.is_inline(),
            r@ == v@,
    {
        Self::Heap(v)
    }
}

impl<T, const N: usize> vstd::std_specs::convert::FromSpecImpl<Vec<T>> for LocalStorageVec<T, N> {
    open spec fn obeys_from_spec() -> bool {
        true
    }

    open spec fn from_spec(v: Vec<T>) -> Self {
        LocalStorageVec::Heap(v)
    }
}

impl<T: Default, const K: usize, const M: usize> From<[T; K]> for LocalStorageVec<T, M> {
    /// Takes the elements of `array` in order. The result is inline-backed exactly when the
    /// array fits the inline capacity; the slots behind the live elements then hold default
    /// values.
    fn from(array: [T; K]) -> (r: Self)
        ensures
            r.wf(),
            r@ == array@,
            r.is_inline() <==> K <= M,
            r matches LocalStorageVec::Stack { buf, len } ==> len == K && forall|i: int|
                K <= i < M ==> is_default(#[trigger] buf@[i]),
    {
        if K <= M {
            let mut src = array;
            let mut buf = default_slots::<T, M>();
            let mut i: usize = 0;
            while i < K
                invariant
                    i <= K <= M,
                    forall|j: int| 0 <= j < i ==> buf@[j] == array@[j],
                    forall|j: int| i <= j < K ==> src@[j] == array@[j],
                    forall|j: int| K <= j < M ==> is_default(#[trigger] buf@[j]),
                decreases K - i,
            {
                core::mem::swap(&mut buf[i], &mut src[i]);
                i += 1;
            }
            assert(buf@.take(K as int) =~= array@);
            Self::Stack { buf, len: K }
        } else {
            Self::Heap(Vec::from(array))
        }
    }
}

impl<T: Default, const K: usize, const M: usize> vstd::std_specs::convert::FromSpecImpl<[T; K]> for LocalStorageVec<T, M> {
    /// The default values of the spare slots are not a function of the array, so the result
    /// is described by the contract of `from` and not by `from_spec`.
    open spec fn obeys_from_spec() -> bool {
        false
    }

    open spec fn from_spec(array: [T; K]) -> Self {
        arbitrary()
    }
}

impl<T: Copy + Default, const N: usize> LocalStorageVec<T, N> {
    /// An empty container, inline-backed, with every slot holding the default value.
    pub fn new() -> (r: Self)
        ensures
            r.wf(),
            r.is_inline(),
            r@ == Seq::<T>::empty(),
            r matches LocalStorageVec::Stack { buf, len } && len == 0 && forall|i: int|
                0 <= i < N ==> is_default(#[trigger] buf@[i]),
    {
        Self::Stack { buf: [T::default();N], len: 0 }
    }

    /// The number of live elements.
    pub fn len(&self) -> (n: usize)
        requires
            self.wf(),
        ensures
            n == self@.len(),
    {
        match self {
            Self::Stack { len, .. } => *len,
            Self::Heap(v) => v.len(),
        }
    }
}

} // verus!
