use vstd::prelude::*;

verus! {

/// Four corners, wound in drawing order.
#[derive(Debug, PartialEq, Eq, Structural)]
pub struct Quad<V> {
    pub a: V,
    pub b: V,
    pub c: V,
    pub d: V,
}

/// Three corners, wound in drawing order.
#[derive(Debug, PartialEq, Eq, Structural)]
pub struct Triangle<V> {
    pub a: V,
    pub b: V,
    pub c: V,
}

} // verus!
