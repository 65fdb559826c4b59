//! The rectangle itself and the operations that belong to it.

use vstd::prelude::*;
use crate::laws::lemma_product_fits;

verus! {

/// A rectangle given by the length of its two sides, in pixels.
///
/// Every pair of side lengths is a valid rectangle, a side of length zero
/// included.
#[derive(Debug, Clone, Copy, PartialEq, Eq, Structural)]
pub struct Rectangulo {
    /// Horizontal side: the width.
    pub base: u32,
    /// Vertical side: the height.
    pub altura: u32,
}

impl Rectangulo {
    /// The area as a natural number: width times height, unbounded.
    pub open spec fn area(self) -> nat {
        self.base as nat * self.altura as nat
    }

    /// `self` is strictly larger than `other` along both sides, so that
    /// `other` can be laid inside `self` with room to spare. Equal sides
    /// are not enough.
    pub open spec fn encloses(self, other: Rectangulo) -> bool {
        self.base > other.base && self.altura > other.altura
    }

    /// Area of the rectangle in square pixels.
    ///
    /// The result is exact for every rectangle: it is returned as `u64`,
    /// which holds the product of any two `u32` sides.
    pub fn get_area(&self) -> (area: u64)
        ensures
            area == self.area(),
    {
        proof {
            lemma_product_fits(self.base, self.altura);
        }
        let base: u64 = self.base as u64;
        let altura: u64 = self.altura as u64;
        base * altura
    }

    /// Whether `other` fits inside `self`: true exactly when `self` is
    /// wider than `other` and also taller.
    pub fn can_fit(&self, other: &Rectangulo) -> (fits: bool)
        ensures
            fits == self.encloses(*other),
    {
        self.base > other.base && self.altura > other.altura
    }

    /// The square whose sides all have length `side_size`.
    pub fn square(side_size: u32) -> (sq: Self)
        ensures
            sq.base == side_size,
            sq.altura == side_size,
            sq.area() == side_size * side_size,
    {
        Self { base: side_size, altura: side_size }
    }
}

} // verus!
