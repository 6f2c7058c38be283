# palette (CIE L\*u\*v\*)

The CIE L\*u\*v\* color type `Luv<Wp, T>` and its transparent form `Luva<Wp, T>`.

- `src/` is verified with Verus: constructors, component tuple conversions,
  `From` conversions, `Clone`, componentwise `==`, the identity
  `FromColorUnclamped`, and componentwise and scalar `+ - * /`. The round-trip
  laws between these stand as proof functions in `src/luv.rs`.
- `app/` holds what works on floating point components (bounds, clamping,
  conversions from XYZ and LCh(uv), hue, random sampling) and the impls of
  `bytemuck`, `approx` and `rand` traits on a layout-compatible copy of `Luv`.
