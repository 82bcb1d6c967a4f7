//! The host's duties at the front of house.

use vstd::prelude::*;

verus! {

pub fn add_to_waitlist() {
}

pub fn seat_at_table() {
}

} // verus!
