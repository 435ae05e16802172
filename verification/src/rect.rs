//! A rectangle with named dimensions and the small methods computed
//! from them.

use vstd::prelude::*;

verus! {

/// A rectangle described by its width and height in pixels.
#[derive(Debug, Clone, Copy, PartialEq, Eq, Structural)]
pub struct Rectangle {
    pub width: u32,
    pub height: u32,
}

impl Rectangle {
    /// A square: both dimensions equal to `size`.
    pub fn square(size: u32) -> (r: Rectangle)
        ensures
            r.width == size,
            r.height == size,
    {
        Rectangle { width: size, height: size }
    }

    /// The area in square pixels, exactly `width * height`.
    pub fn area(&self) -> (a: u64)
        ensures
            a == self.width * self.height,
    {
        proof {
            assert((self.width as int) * (self.height as int) <= 0xFFFF_FFFF * 0xFFFF_FFFF)
                by (nonlinear_arith)
                requires
                    self.width <= 0xFFFF_FFFF,
                    self.height <= 0xFFFF_FFFF,
            ;
        }
        (self.width as u64) * (self.height as u64)
    }

    /// Whether `other` fits strictly inside `self` in both
    /// dimensions.
    pub fn can_hold(&self, other: &Rectangle) -> (b: bool)
        ensures
            b == (self.width > other.width && self.height > other.height),
    {
        self.width > other.width && self.height > other.height
    }
}

} // verus!
