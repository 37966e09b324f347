//! The largest and the smallest of a list of numbers, found in one pass.

use vstd::prelude::*;

verus! {

/// Whether `x` occurs in `s` and no element of `s` is larger.
pub open spec fn is_largest(s: Seq<i32>, x: i32) -> bool {
    s.contains(x) && forall|i: int| 0 <= i < s.len() ==> s[i] <= x
}

/// Whether `x` occurs in `s` and no element of `s` is smaller.
pub open spec fn is_smallest(s: Seq<i32>, x: i32) -> bool {
    s.contains(x) && forall|i: int| 0 <= i < s.len() ==> x <= s[i]
}

/// The largest and the smallest element of `input`, in this order, or `None` when `input`
/// is empty.
pub fn largest_and_smallest(input: &[i32]) -> (r: Option<(i32, i32)>)
    ensures
        r is None <==> input@.len() == 0,
        r matches Some(found) ==> is_largest(input@, found.0) && is_smallest(input@, found.1),
{
    if input.len() == 0 {
        return None;
    }
    let mut largest = input[0];
    let mut smallest = input[0];
    let mut i: usize = 0;
    while i < input.len()
        invariant
            i <= input@.len(),
            input@.len() > 0,
            input@.contains(largest),
            input@.contains(smallest),
            forall|j: int| 0 <= j < i ==> smallest <= #[trigger] input@[j] && input@[j] <= largest,
        decreases input@.len() - i,
    {
        let item = input[i];
        if item > largest {
            largest = item;
        }
        if item < smallest {
            smallest = item;
        }
        i += 1;
    }
    Some((largest, smallest))
}

} // verus!
