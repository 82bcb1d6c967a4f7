//! A function whose result borrows from two inputs: the returned reference
//! is valid as long as both arguments are, which the shared lifetime
//! parameter states.

use vstd::prelude::*;
use vstd::string::StringSliceAdditionalSpecFns;

verus! {

/// The longer of two string slices, measured in bytes; ties go to the
/// second.
pub fn longest<'a>(x: &'a str, y: &'a str) -> (r: &'a str)
    ensures
        r@ == if x.spec_bytes().len() as usize > y.spec_bytes().len() as usize {
            x@
        } else {
            y@
        },
{
    if x.len() > y.len() {
        x
    } else {
        y
    }
}

} // verus!
