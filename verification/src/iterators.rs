//! Walking a vector and building a new one from it: the verified core of
//! the usual map-and-collect chain.

use vstd::prelude::*;

verus! {

/// A new vector holding each element of `v` plus one, in order.
pub fn map_add_one(v: &Vec<i32>) -> (r: Vec<i32>)
    requires
        forall|i: int| 0 <= i < v@.len() ==> #[trigger] v@[i] < i32::MAX,
    ensures
        r@.len() == v@.len(),
        forall|i: int| 0 <= i < v@.len() ==> #[trigger] r@[i] == v@[i] + 1,
{
    let mut r: Vec<i32> = Vec::new();
    let mut i: usize = 0;
    while i < v.len()
        invariant
            i <= v@.len(),
            r@.len() == i,
            forall|j: int| 0 <= j < v@.len() ==> #[trigger] v@[j] < i32::MAX,
            forall|j: int| 0 <= j < i ==> #[trigger] r@[j] == v@[j] + 1,
        decreases v@.len() - i,
    {
        r.push(v[i] + 1);
        i += 1;
    }
    r
}

/// Adds one to each of three values and checks the outcome.
fn example5() {
    let v = vec![1i32, 2, 3];
    let v1 = map_add_one(&v);
    assert(v1@[0] == 2 && v1@[1] == 3 && v1@[2] == 4);
}

/// Exercises the vector walk.
pub fn examples() {
    example5();
}

} // verus!
