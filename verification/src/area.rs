//! The area of a rectangle, for callers that do not hold a [`Rectangulo`].
//!
//! Three forms of one computation: from the two sides, from a pair of
//! sides, and from a borrowed rectangle. All three agree with
//! [`Rectangulo::get_area`].

use vstd::prelude::*;
use crate::laws::lemma_product_fits;
use crate::shape::Rectangulo;

verus! {

/// Area of the rectangle with the given sides.
pub fn get_area_v1(base: u32, altura: u32) -> (area: u64)
    ensures
        area == base * altura,
{
    proof {
        lemma_product_fits(base, altura);
    }
    let base: u64 = base as u64;
    let altura: u64 = altura as u64;
    base * altura
}

/// Area of the rectangle given as the pair `(base, altura)`.
pub fn get_area_v2(rectangulo: (u32, u32)) -> (area: u64)
    ensures
        area == rectangulo.0 * rectangulo.1,
{
    proof {
        lemma_product_fits(rectangulo.0, rectangulo.1);
    }
    let base: u64 = rectangulo.0 as u64;
    let altura: u64 = rectangulo.1 as u64;
    base * altura
}

/// Area of `rect`, which is only read.
pub fn get_area_v3(rect: &Rectangulo) -> (area: u64)
    ensures
        area == rect.area(),
{
    proof {
        lemma_product_fits(rect.base, rect.altura);
    }
    let base: u64 = rect.base as u64;
    let altura: u64 = rect.altura as u64;
    base * altura
}

} // verus!
