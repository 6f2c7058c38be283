use vstd::prelude::*;

verus! {

/// A conversion from another color type that does not clamp the result into
/// the valid range of `Self`.
pub trait FromColorUnclamped<T>: Sized {
    /// Convert `val` into `Self`, without clamping.
    fn from_color_unclamped(val: T) -> Self;
}

} // verus!
