//! What holds of every rectangle, proved once for all callers.

use vstd::prelude::*;
use crate::shape::Rectangulo;

verus! {

/// The product of two `u32` sides never exceeds `u64::MAX`.
pub proof fn lemma_product_fits(base: u32, altura: u32)
    ensures
        base * altura <= u64::MAX,
{
    assert(base * altura <= 0xFFFF_FFFF * 0xFFFF_FFFF) by (nonlinear_arith)
        requires
            base <= 0xFFFF_FFFF,
            altura <= 0xFFFF_FFFF,
    ;
}

/// Fitting goes one way only: if `a` can hold `b`, then `b` cannot hold `a`.
/// In particular no rectangle can hold itself.
pub proof fn lemma_fit_is_one_way(a: Rectangulo, b: Rectangulo)
    requires
        a.encloses(b),
    ensures
        !b.encloses(a),
{
}

/// Fitting chains: what fits inside `b` also fits inside anything that can
/// hold `b`.
pub proof fn lemma_fit_chains(a: Rectangulo, b: Rectangulo, c: Rectangulo)
    requires
        a.encloses(b),
        b.encloses(c),
    ensures
        a.encloses(c),
{
}

/// A rectangle that can hold another has strictly the larger area.
pub proof fn lemma_fit_has_larger_area(a: Rectangulo, b: Rectangulo)
    requires
        a.encloses(b),
    ensures
        a.area() > b.area(),
{
    assert(a.base * a.altura > b.base * b.altura) by (nonlinear_arith)
        requires
            a.base > b.base,
            a.altura > b.altura,
    ;
}

} // verus!
