//! The CIE L\*u\*v\* (CIELUV) color space and its transparent variant, with
//! verified constructors, component conversions and their round-trip laws.

pub mod alpha;
pub mod convert;
pub mod luv;
pub mod ops;

pub use alpha::Alpha;
pub use convert::FromColorUnclamped;
pub use luv::{Luv, Luva};
