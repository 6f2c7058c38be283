use vstd::prelude::*;

verus! {

/// A color with an alpha component: `color` holds the non-transparent color
/// and `alpha` its transparency.
#[derive(Debug)]
pub struct Alpha<C, T> {
    /// The color.
    pub color: C,
    /// The transparency component. 0.0 is fully transparent and 1.0 is fully
    /// opaque.
    pub alpha: T,
}

} // verus!
