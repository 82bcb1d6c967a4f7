//! The kitchen side of the restaurant: a breakfast whose fruit is the
//! season's choice, not the guest's, and the appetizers on offer.

use vstd::prelude::*;
use vstd::string::StringExecFns;

verus! {

/// A breakfast order.  The toast is public and chosen by the guest; the
/// fruit field stays private, so a breakfast can only be made through a
/// constructor.
pub struct Breakfast {
    pub toast: String,
    seasonal_fruit: String,
}

impl Breakfast {
    /// The toast that was ordered.
    pub closed spec fn spec_toast(&self) -> Seq<char> {
        self.toast@
    }

    /// The fruit that came with the breakfast.
    pub closed spec fn spec_fruit(&self) -> Seq<char> {
        self.seasonal_fruit@
    }

    /// A summer breakfast: the guest's choice of toast, served with
    /// peaches.
    pub fn summer(toast: &str) -> (b: Breakfast)
        ensures
            b.spec_toast() == toast@,
            b.spec_fruit() == "peaches"@,
    {
        Breakfast { toast: String::from_str(toast), seasonal_fruit: String::from_str("peaches") }
    }
}

/// In contrast with struct fields, making an enum public makes every
/// variant public.
pub enum Appetizer {
    Soup,
    Salad,
}

#[allow(dead_code)]
pub(crate) fn fix_incorrect_order() {
    cook_order();
    crate::restaurant::serving::serve_order();
}

#[allow(dead_code)]
pub(crate) fn cook_order() {
}

} // verus!
