//! Small integer helpers shared by the move rules and the board colouring.

use vstd::prelude::*;

verus! {

/// The distance between two coordinates on one axis of the board.
pub open spec fn spec_distance(a: u8, b: u8) -> int {
    if a < b {
        b - a
    } else {
        a - b
    }
}

/// Parity and distance of a board coordinate.
pub trait MyNumTrait {
    fn is_even(&self) -> bool;

    fn is_odd(&self) -> bool;

    fn distance(self, y: u8) -> u8;
}

impl MyNumTrait for u8 {
    /// Whether the number is a multiple of two, read off its lowest bit.
    fn is_even(&self) -> (even: bool)
        ensures
            even == (*self % 2 == 0),
    {
        let x: u8 = *self;
        assert((x & 1 == 0) == (x % 2 == 0)) by (bit_vector);
        x & 1 == 0
    }

    fn is_odd(&self) -> (odd: bool)
        ensures
            odd == (*self % 2 == 1),
    {
        !self.is_even()
    }

    /// The larger of the two numbers minus the smaller, so nothing underflows.
    fn distance(self, y: u8) -> (d: u8)
        ensures
            d == spec_distance(self, y),
    {
        if self < y {
            y - self
        } else {
            self - y
        }
    }
}

} // verus!
