//! The servers' duties at the front of house; only serving an order is
//! visible outside this module.

use vstd::prelude::*;

verus! {

#[allow(dead_code)]
pub(crate) fn take_order() {
}

pub fn serve_order() {
}

#[allow(dead_code)]
pub(crate) fn take_payment() {
}

} // verus!
