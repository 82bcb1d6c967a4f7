//! A rectangle with associated functions and methods: a constructor for
//! squares, the area, and a containment comparison between two rectangles.

use vstd::prelude::*;

verus! {

#[derive(Debug)]
pub struct Rectangle {
    pub width: u32,
    pub height: u32,
}

impl Rectangle {
    /// A square is a rectangle whose sides are equal.
    pub fn square(size: u32) -> (r: Self)
        ensures
            r.width == size,
            r.height == size,
    {
        Self { width: size, height: size }
    }

    /// The area of the rectangle; the product must fit in the result type.
    pub fn area(&self) -> (a: u32)
        requires
            self.width * self.height <= u32::MAX,
        ensures
            a == self.width * self.height,
    {
        self.width * self.height
    }

    /// Whether the rectangle has a nonzero width.  A method may share its
    /// name with a field; with parentheses it is the method that is named.
    pub fn width(&self) -> (b: bool)
        ensures
            b == (self.width > 0),
    {
        self.width > 0
    }

    /// Whether `other` fits strictly inside `self` in both dimensions.
    pub fn can_hold(&self, other: &Rectangle) -> (b: bool)
        ensures
            b == (self.width > other.width && self.height > other.height),
    {
        self.width > other.width && self.height > other.height
    }
}

} // verus!
