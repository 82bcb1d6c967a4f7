//! Shared ownership with `Rc`: two lists that both continue into the same
//! tail, owned by neither alone.

use vstd::prelude::*;
use std::rc::Rc;

verus! {

/// A cons list whose tail may be shared between owners.
pub enum List {
    Cons(i32, Rc<List>),
    Nil,
}

/// Relies on `Rc::clone`: the clone is a new handle to the same
/// allocation, so it carries the same value as the original.
#[verifier::external_body]
fn rc_clone<T>(rc: &Rc<T>) -> (r: Rc<T>)
    ensures
        r == *rc,
{
    Rc::clone(rc)
}

/// Builds the list 5, 10 and lets two further lists share it as their
/// tail; cloning the handle shares the cells instead of copying them.
pub fn examples() {
    let a = Rc::new(List::Cons(5, Rc::new(List::Cons(10, Rc::new(List::Nil)))));
    let b = List::Cons(3, rc_clone(&a));
    let c = List::Cons(4, rc_clone(&a));
    assert(b matches List::Cons(v, t) && v == 3 && t == a);
    assert(c matches List::Cons(v, t) && v == 4 && t == a);
}

} // verus!
