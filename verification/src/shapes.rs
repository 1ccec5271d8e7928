//! Rectangles with whole-number sides.

use vstd::prelude::*;

verus! {

/// A rectangle, by the lengths of its sides in pixels.
#[derive(Debug)]
pub struct Rectangle {
    pub width: u32,
    pub height: u32,
}

impl Rectangle {
    /// The area of the rectangle: width times height, as a number without
    /// bound.
    pub open spec fn area_of(&self) -> nat {
        self.width as nat * self.height as nat
    }

    /// Whether `other` fits inside this rectangle with room to spare: this
    /// one is strictly wider and strictly higher.
    pub open spec fn holds(&self, other: &Rectangle) -> bool {
        self.width > other.width && self.height > other.height
    }

    /// Whether both sides have the same length.
    pub open spec fn is_square(&self) -> bool {
        self.width == self.height
    }

    /// The area of the rectangle, which must fit in a `u32`.
    pub fn area(&self) -> (area: u32)
        requires
            self.area_of() <= u32::MAX,
        ensures
            area == self.area_of(),
    {
        self.width * self.height
    }

    /// Whether `other` fits inside this rectangle with room to spare.
    pub fn can_hold(&self, other: &Rectangle) -> (fits: bool)
        ensures
            fits == self.holds(other),
    {
        self.width > other.width && self.height > other.height
    }

    /// The square whose sides have length `size`.
    pub fn square(size: u32) -> (square: Rectangle)
        ensures
            square.width == size,
            square.height == size,
            square.is_square(),
    {
        Rectangle { width: size, height: size }
    }
}

/// No rectangle can hold itself, and of two rectangles at most one can hold
/// the other; what a rectangle can hold, every rectangle that holds it can
/// hold too. A rectangle that holds another has the strictly larger area.
pub proof fn lemma_holding_is_a_strict_order(a: Rectangle, b: Rectangle, c: Rectangle)
    ensures
        !a.holds(&a),
        a.holds(&b) ==> !b.holds(&a),
        a.holds(&b) && b.holds(&c) ==> a.holds(&c),
        a.holds(&b) ==> a.area_of() > b.area_of(),
{
    if a.holds(&b) {
        assert(a.width as nat * a.height as nat > b.width as nat * b.height as nat)
            by (nonlinear_arith)
            requires
                a.width > b.width,
                a.height > b.height,
        ;
    }
}

} // verus!
