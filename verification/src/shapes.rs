//! Rectangles with a containment test.

use vstd::prelude::*;

verus! {

/// An axis-aligned rectangle, measured in whole units.
#[derive(Debug)]
pub struct Rectangle {
    pub width: u32,
    pub height: u32,
}

impl Rectangle {
    /// A square of the given side length.
    pub fn square(size: u32) -> (r: Self)
        ensures
            r.width == size,
            r.height == size,
    {
        Self { width: size, height: size }
    }

    /// The area of the rectangle.
    pub fn area(self: &Self) -> (r: u32)
        requires
            self.height * self.width <= u32::MAX,
        ensures
            r == self.height * self.width,
    {
        self.height * self.width
    }

    /// Whether `other` fits inside `self` without rotation.
    pub fn can_hold(self: &Self, other: &Self) -> (r: bool)
        ensures
            r == (self.height >= other.height && self.width >= other.width),
    {
        self.height >= other.height && self.width >= other.width
    }
}

} // verus!
