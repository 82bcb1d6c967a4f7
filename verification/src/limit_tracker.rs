//! A tracker that measures a value against a maximum and warns through a
//! messenger as the value approaches or passes it.  The messenger is any
//! implementor of the `Messenger` trait; taking it by shared reference
//! leaves implementors free to use interior mutability to record what was
//! sent.

use vstd::prelude::*;

verus! {

/// A sink for warning messages, implemented by the tracker's users.
pub trait Messenger {
    fn send(&self, msg: &str);
}

pub struct LimitTracker<'a, T: Messenger> {
    messenger: &'a T,
    value: usize,
    max: usize,
}

impl<'a, T> LimitTracker<'a, T> where T: Messenger {
    /// The value most recently recorded.
    pub closed spec fn spec_value(&self) -> usize {
        self.value
    }

    /// The maximum the value is measured against.
    pub closed spec fn spec_max(&self) -> usize {
        self.max
    }

    /// The messenger warnings go to.
    pub closed spec fn spec_messenger(&self) -> &'a T {
        self.messenger
    }

    pub fn new(messenger: &'a T, max: usize) -> (t: LimitTracker<'a, T>)
        ensures
            t.spec_value() == 0,
            t.spec_max() == max,
            t.spec_messenger() == messenger,
    {
        LimitTracker { messenger, value: 0, max }
    }

    /// Records the new value and warns once when it reaches three
    /// quarters, nine tenths, or the whole of the maximum.  The thresholds
    /// are compared in exact integer arithmetic; a tracker whose maximum
    /// and value are both zero has no quota to measure against and reports
    /// nothing, while any positive value is over a zero maximum.
    pub fn set_value(&mut self, value: usize)
        ensures
            final(self).spec_value() == value,
            final(self).spec_max() == old(self).spec_max(),
            final(self).spec_messenger() == old(self).spec_messenger(),
    {
        self.value = value;
        let v = value as u128;
        let m = self.max as u128;
        if m == 0 && v == 0 {
        } else if v >= m {
            self.messenger.send("Error: You are over your quota.");
        } else if v * 10 >= m * 9 {
            self.messenger.send("Urgent: You are at 90% of your quota.");
        } else if v * 4 >= m * 3 {
            self.messenger.send("Warning: You are at 75% of your quota.");
        }
    }
}

} // verus!
