//! Values behind `Box` pointers: a recursive list type that only a known
//! size makes possible, and dereferencing plain and boxed values.

use vstd::prelude::*;

verus! {

/// A recursive cons list.  The `Box` stores a pointer of known size in
/// each cell, which gives the recursive type itself a known size.
pub enum List {
    Cons(i32, Box<List>),
    Nil,
}

/// Builds the list 1, 2, 3.
fn cons_list() {
    let list = List::Cons(
        1,
        Box::new(List::Cons(2, Box::new(List::Cons(3, Box::new(List::Nil))))),
    );
    assert(list matches List::Cons(v, _) && v == 1);
}

/// A reference points at a value; dereferencing it reads the value.
fn simple_pointer() {
    let x: i32 = 5;
    let y = &x;
    assert(5 == x);
    assert(5 == *y);
}

/// A box points at a copy of the value on the heap; dereferencing reads
/// that copy.
fn smart_pointer() {
    let x: i32 = 5;
    let y = Box::new(x);
    assert(5 == x);
    assert(5 == *y);
}

/// Exercises the three demonstrations.
pub fn examples() {
    cons_list();
    simple_pointer();
    smart_pointer();
}

} // verus!
