//! Laws of the container that no single contract states: what holds over whole histories of
//! mutations, and how the different ways of reading a container agree.

use vstd::prelude::*;
use crate::model::{Shape, Step};
use crate::storage::LocalStorageVec;

verus! {

/// The model speaks of real containers: a well-formed container fits its inline capacity.
pub proof fn lemma_well_formed_fits<T, const N: usize>(v: LocalStorageVec<T, N>)
    requires
        v.wf(),
    ensures
        v.shape().fits(N as nat),
{
}

/// Taking `first` and then `second` is taking the two in a row.
pub proof fn lemma_after_all_concat<T>(
    cap: nat,
    start: Shape<T>,
    first: Seq<Step<T>>,
    second: Seq<Step<T>>,
)
    ensures
        start.after_all(cap, first + second) == start.after_all(cap, first).after_all(cap, second),
    decreases second.len(),
{
    if second.len() == 0 {
        assert(first + second =~= first);
    } else {
        assert((first + second).drop_last() =~= first + second.drop_last());
        assert((first + second).last() == second.last());
        lemma_after_all_concat(cap, start, first, second.drop_last());
    }
}

/// A container that fits its inline capacity still does so after any mutations that
/// respect the bounds of `insert` and `remove`: whenever it is inline-backed, it holds no
/// more than `cap` elements.
pub proof fn lemma_steps_keep_fit<T>(cap: nat, start: Shape<T>, steps: Seq<Step<T>>)
    requires
        start.fits(cap),
        start.admits_all(cap, steps),
    ensures
        start.after_all(cap, steps).fits(cap),
    decreases steps.len(),
{
    if steps.len() > 0 {
        lemma_steps_keep_fit(cap, start, steps.drop_last());
    }
}

/// Promotion is permanent: a heap-backed container stays heap-backed whatever is done to it.
pub proof fn lemma_promotion_is_permanent<T>(cap: nat, start: Shape<T>, steps: Seq<Step<T>>)
    requires
        !start.inline,
    ensures
        !start.after_all(cap, steps).inline,
    decreases steps.len(),
{
    if steps.len() > 0 {
        lemma_promotion_is_permanent(cap, start, steps.drop_last());
    }
}

/// Once a container has grown beyond its inline capacity it is heap-backed, and it is
/// heap-backed after any later mutations too, also after those that bring its length back
/// under the capacity.
pub proof fn lemma_outgrown_stays_on_heap<T>(
    cap: nat,
    start: Shape<T>,
    earlier: Seq<Step<T>>,
    later: Seq<Step<T>>,
)
    requires
        start.fits(cap),
        start.admits_all(cap, earlier),
        start.after_all(cap, earlier).items.len() > cap,
    ensures
        !start.after_all(cap, earlier).inline,
        !start.after_all(cap, earlier + later).inline,
{
    lemma_steps_keep_fit(cap, start, earlier);
    lemma_after_all_concat(cap, start, earlier, later);
    lemma_promotion_is_permanent(cap, start.after_all(cap, earlier), later);
}

/// The slice of the live elements agrees with the other ways of reading the container: it
/// is as long as the length says, and it holds at each position what a read at that position
/// returns, every such read being within bounds.
pub proof fn lemma_slice_agrees_with_reads<T, const N: usize>(
    v: LocalStorageVec<T, N>,
    slice: &[T],
)
    requires
        v.wf(),
        slice@ == v@,
    ensures
        slice@.len() == v@.len(),
        forall|i: usize|
            i < v@.len() ==> vstd::std_specs::core::IndexSpec::index_req(&v, &i) && slice@[i as int]
                == v[i as int],
{
}

/// The prefix that ends at the live length is the whole slice of live elements. A prefix
/// that ends behind the live length, and a read at a position that is not below it, are
/// outside the contract.
pub proof fn lemma_full_prefix<T, const N: usize>(v: LocalStorageVec<T, N>)
    requires
        v.wf(),
    ensures
        vstd::std_specs::core::IndexSpec::index_req(&v, &(..(v@.len() as usize))),
        v.prefix(v@.len() as int) == v@,
        forall|end: usize| end > v@.len() ==> !vstd::std_specs::core::IndexSpec::index_req(&v, &(..end)),
        forall|index: usize| index >= v@.len() ==> !vstd::std_specs::core::IndexSpec::index_req(&v, &index),
{
    assert(v@.subrange(0, v@.len() as int) =~= v@);
}

/// The suffix that starts at position 0 is the whole slice of live elements. A suffix has
/// to start at a live element, so this speaks of containers that are not empty.
pub proof fn lemma_full_suffix<T, const N: usize>(v: LocalStorageVec<T, N>)
    requires
        v.wf(),
        v@.len() > 0,
    ensures
        vstd::std_specs::core::IndexSpec::index_req(&v, &(0usize..)),
        v.suffix(0) == v@,
{
    assert(v@.subrange(0, v@.len() as int) =~= v@);
}

} // verus!
