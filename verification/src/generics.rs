//! Finding the largest element of a slice, first for machine integers and
//! then generically for any ordered element type.

use vstd::prelude::*;

verus! {

/// The largest number in a nonempty slice: an element that every element
/// is at most.
pub fn largest_number(list: &[i32]) -> (r: &i32)
    requires
        list@.len() > 0,
    ensures
        exists|i: int| 0 <= i < list@.len() && *r == list@[i],
        forall|i: int| 0 <= i < list@.len() ==> list@[i] <= *r,
{
    let mut largest: &i32 = &list[0];
    let mut idx: usize = 1;
    while idx < list.len()
        invariant
            1 <= idx <= list@.len(),
            exists|i: int| 0 <= i < list@.len() && *largest == list@[i],
            forall|i: int| 0 <= i < idx ==> list@[i] <= *largest,
        decreases list@.len() - idx,
    {
        if list[idx] > *largest {
            largest = &list[idx];
        }
        idx += 1;
    }
    largest
}

/// The same scan for any element type with a partial order.  An arbitrary
/// `PartialOrd` implementation promises nothing about how its comparisons
/// relate to one another, so what is guaranteed here is that the result is
/// one of the elements; for machine integers, `largest_number` states
/// maximality as well.
pub fn largest_number_generic<T: PartialOrd>(list: &[T]) -> (r: &T)
    requires
        list@.len() > 0,
    ensures
        exists|i: int| 0 <= i < list@.len() && *r == list@[i],
{
    let mut largest: &T = &list[0];
    let mut idx: usize = 1;
    while idx < list.len()
        invariant
            1 <= idx <= list@.len(),
            exists|i: int| 0 <= i < list@.len() && *largest == list@[i],
        decreases list@.len() - idx,
    {
        let item = &list[idx];
        if item > largest {
            largest = item;
        }
        idx += 1;
    }
    largest
}

/// Exercises the integer scan on a small list.
pub fn generics() {
    let number_list = vec![1i32, 2, 3, 4, 5];
    let largest = largest_number(number_list.as_slice());
    assert(*largest == 5);
}

} // verus!
