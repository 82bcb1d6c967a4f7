//! Module organisation in the picture of a restaurant: the front of house
//! seats guests, the back of house cooks, and a caller eats by reaching
//! through the module tree.

pub mod back_of_house;
pub mod hosting;
pub mod serving;

use vstd::prelude::*;

verus! {

/// A visit from the outside: join the waitlist, then get a table.
pub fn eat_at_restaurant() {
    crate::restaurant::hosting::add_to_waitlist();
    hosting::add_to_waitlist();
    hosting::seat_at_table();
}

} // verus!
