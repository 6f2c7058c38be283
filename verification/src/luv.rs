use core::marker::PhantomData;
use vstd::prelude::*;
use vstd::std_specs::cmp::PartialEqSpec;
use vstd::std_specs::convert::FromSpec;

use crate::alpha::Alpha;
use crate::convert::FromColorUnclamped;

verus! {

/// CIE L\*u\*v\* (CIELUV) with an alpha component.
pub type Luva<Wp, T> = Alpha<Luv<Wp, T>, T>;

/// The CIE L\*u\*v\* (CIELUV) color space.
///
/// CIE L\*u\*v\* is a device independent color space. It is a simple
/// transformation of the CIE XYZ color space with the additional
/// property of being more perceptually uniform. In contrast to
/// CIELAB, CIELUV is also linear for a fixed lightness: additive
/// mixtures of colors (at a fixed lightness) will fall on a line in
/// CIELUV-space.
///
/// As a result, CIELUV is used more frequently for additive settings.
#[derive(Debug)]
pub struct Luv<Wp, T> {
    /// L\* is the lightness of the color. 0.0 gives absolute black and 100
    /// give the brightest white.
    pub l: T,
    /// The range of valid u\* varies depending on the values of L\*
    /// and v\*, but at its limits u\* is within the interval (-84.0,
    /// 176.0).
    pub u: T,
    /// The range of valid v\* varies depending on the values of L\*
    /// and u\*, but at its limits v\* is within the interval (-135.0,
    /// 108.0).
    pub v: T,
    /// The white point associated with the color's illuminant and observer.
    pub white_point: PhantomData<Wp>,
}

impl<Wp, T> Luv<Wp, T> {
    /// The color with the given `(L*, u*, v*)` components.
    pub open spec fn from_triple(t: (T, T, T)) -> Self {
        Luv { l: t.0, u: t.1, v: t.2, white_point: PhantomData }
    }

    /// The `(L*, u*, v*)` components of the color.
    pub open spec fn triple(self) -> (T, T, T) {
        (self.l, self.u, self.v)
    }

    /// Create a CIE L\*u\*v\* color.
    pub fn new(l: T, u: T, v: T) -> (c: Self)
        ensures
            c == Self::from_triple((l, u, v)),
            c.l == l,
            c.u == u,
            c.v == v,
    {
        Luv { l, u, v, white_point: PhantomData }
    }

    /// Convert to a `(L\*, u\*, v\*)` tuple.
    pub fn into_components(self) -> (t: (T, T, T))
        ensures
            t == self.triple(),
            t == (self.l, self.u, self.v),
    {
        (self.l, self.u, self.v)
    }

    /// Convert from a `(L\*, u\*, v\*)` tuple.
    pub fn from_components(components: (T, T, T)) -> (c: Self)
        ensures
            c == Self::from_triple(components),
            c.l == components.0,
            c.u == components.1,
            c.v == components.2,
    {
        let (l, u, v) = components;
        Self::new(l, u, v)
    }
}

impl<Wp, T: Copy> Copy for Luv<Wp, T> {}

impl<Wp, T: Clone> Clone for Luv<Wp, T> {
    /// Clone each component; the white point marker carries no data.
    fn clone(&self) -> (res: Luv<Wp, T>)
        ensures
            cloned(self.l, res.l),
            cloned(self.u, res.u),
            cloned(self.v, res.v),
    {
        Luv { l: self.l.clone(), u: self.u.clone(), v: self.v.clone(), white_point: PhantomData }
    }
}

/// [`Luva`] implementations.
impl<Wp, T, A> Alpha<Luv<Wp, T>, A> {
    /// The transparent color with the given `(L*, u*, v*, alpha)` components.
    pub open spec fn from_quadruple(q: (T, T, T, A)) -> Self {
        Alpha { color: Luv::from_triple((q.0, q.1, q.2)), alpha: q.3 }
    }

    /// The `(L*, u*, v*, alpha)` components of the transparent color.
    pub open spec fn quadruple(self) -> (T, T, T, A) {
        (self.color.l, self.color.u, self.color.v, self.alpha)
    }

    /// Create a CIE L\*u\*v\* color with transparency.
    pub fn new(l: T, u: T, v: T, alpha: A) -> (c: Self)
        ensures
            c == Self::from_quadruple((l, u, v, alpha)),
            c.color.l == l,
            c.color.u == u,
            c.color.v == v,
            c.alpha == alpha,
    {
        Alpha { color: Luv::new(l, u, v), alpha }
    }

    /// Convert to a `(L\*, u\*, v\*, alpha)` tuple.
    pub fn into_components(self) -> (q: (T, T, T, A))
        ensures
            q == self.quadruple(),
            q == (self.color.l, self.color.u, self.color.v, self.alpha),
    {
        (self.color.l, self.color.u, self.color.v, self.alpha)
    }

    /// Convert from a `(L\*, u\*, v\*, alpha)` tuple.
    pub fn from_components(components: (T, T, T, A)) -> (c: Self)
        ensures
            c == Self::from_quadruple(components),
            c.color.l == components.0,
            c.color.u == components.1,
            c.color.v == components.2,
            c.alpha == components.3,
    {
        let (l, u, v, alpha) = components;
        Self::new(l, u, v, alpha)
    }
}

impl<Wp, T> FromColorUnclamped<Luv<Wp, T>> for Luv<Wp, T> {
    /// A color converted into its own color space is left as it is.
    fn from_color_unclamped(color: Luv<Wp, T>) -> (res: Self)
        ensures
            res == color,
    {
        color
    }
}

impl<Wp, T> From<(T, T, T)> for Luv<Wp, T> {
    fn from(components: (T, T, T)) -> (c: Self)
        ensures
            c.l == components.0,
            c.u == components.1,
            c.v == components.2,
    {
        Self::from_components(components)
    }
}

impl<Wp, T> vstd::std_specs::convert::FromSpecImpl<(T, T, T)> for Luv<Wp, T> {
    open spec fn obeys_from_spec() -> bool {
        true
    }

    open spec fn from_spec(components: (T, T, T)) -> Self {
        Luv::from_triple(components)
    }
}

impl<Wp, T> From<Luv<Wp, T>> for (T, T, T) {
    fn from(color: Luv<Wp, T>) -> (t: (T, T, T))
        ensures
            t == (color.l, color.u, color.v),
    {
        color.into_components()
    }
}

impl<Wp, T> vstd::std_specs::convert::FromSpecImpl<Luv<Wp, T>> for (T, T, T) {
    open spec fn obeys_from_spec() -> bool {
        true
    }

    open spec fn from_spec(color: Luv<Wp, T>) -> Self {
        color.triple()
    }
}

impl<Wp, T, A> From<(T, T, T, A)> for Alpha<Luv<Wp, T>, A> {
    fn from(components: (T, T, T, A)) -> (c: Self)
        ensures
            c.color.l == components.0,
            c.color.u == components.1,
            c.color.v == components.2,
            c.alpha == components.3,
    {
        Self::from_components(components)
    }
}

impl<Wp, T, A> vstd::std_specs::convert::FromSpecImpl<(T, T, T, A)> for Alpha<Luv<Wp, T>, A> {
    open spec fn obeys_from_spec() -> bool {
        true
    }

    open spec fn from_spec(components: (T, T, T, A)) -> Self {
        Alpha::<Luv<Wp, T>, A>::from_quadruple(components)
    }
}

impl<Wp, T, A> From<Alpha<Luv<Wp, T>, A>> for (T, T, T, A) {
    fn from(color: Alpha<Luv<Wp, T>, A>) -> (q: (T, T, T, A))
        ensures
            q == (color.color.l, color.color.u, color.color.v, color.alpha),
    {
        color.into_components()
    }
}

impl<Wp, T, A> vstd::std_specs::convert::FromSpecImpl<Alpha<Luv<Wp, T>, A>> for (T, T, T, A) {
    open spec fn obeys_from_spec() -> bool {
        true
    }

    open spec fn from_spec(color: Alpha<Luv<Wp, T>, A>) -> Self {
        color.quadruple()
    }
}

impl<Wp, T: PartialEq> PartialEq for Luv<Wp, T> {
    /// Two colors are equal when their components are pairwise equal.
    fn eq(&self, other: &Self) -> (r: bool)
        ensures
            T::obeys_eq_spec() ==> (r <==> (self.l.eq_spec(&other.l) && self.u.eq_spec(&other.u)
                && self.v.eq_spec(&other.v))),
    {
        self.l == other.l && self.u == other.u && self.v == other.v
    }
}

impl<Wp, T: PartialEq> vstd::std_specs::cmp::PartialEqSpecImpl for Luv<Wp, T> {
    open spec fn obeys_eq_spec() -> bool {
        T::obeys_eq_spec()
    }

    open spec fn eq_spec(&self, other: &Self) -> bool {
        &&& self.l.eq_spec(&other.l)
        &&& self.u.eq_spec(&other.u)
        &&& self.v.eq_spec(&other.v)
    }
}

impl<Wp, T: Eq> Eq for Luv<Wp, T> {}

/// Taking a color apart into its components and putting them together again
/// gives back the same color.
pub proof fn lemma_luv_components_round_trip<Wp, T>(c: Luv<Wp, T>)
    ensures
        Luv::<Wp, T>::from_triple(c.triple()) == c,
{
}

/// Building a color from components and taking it apart again gives back the
/// same components.
pub proof fn lemma_luv_triple_round_trip<Wp, T>(t: (T, T, T))
    ensures
        Luv::<Wp, T>::from_triple(t).triple() == t,
{
}

/// The conversions between a color and its component tuple by `From` undo
/// each other, in both orders.
pub proof fn lemma_luv_from_round_trip<Wp, T>(c: Luv<Wp, T>, t: (T, T, T))
    ensures
        <Luv<Wp, T> as FromSpec<(T, T, T)>>::obeys_from_spec(),
        <(T, T, T) as FromSpec<Luv<Wp, T>>>::obeys_from_spec(),
        <Luv<Wp, T> as FromSpec<(T, T, T)>>::from_spec(<(T, T, T) as FromSpec<Luv<Wp, T>>>::from_spec(c)) == c,
        <(T, T, T) as FromSpec<Luv<Wp, T>>>::from_spec(<Luv<Wp, T> as FromSpec<(T, T, T)>>::from_spec(t)) == t,
{
}

/// Taking a transparent color apart into its components and putting them
/// together again gives back the same color.
pub proof fn lemma_luva_components_round_trip<Wp, T, A>(c: Alpha<Luv<Wp, T>, A>)
    ensures
        Alpha::<Luv<Wp, T>, A>::from_quadruple(c.quadruple()) == c,
{
}

/// Building a transparent color from components and taking it apart again
/// gives back the same components.
pub proof fn lemma_luva_quadruple_round_trip<Wp, T, A>(q: (T, T, T, A))
    ensures
        Alpha::<Luv<Wp, T>, A>::from_quadruple(q).quadruple() == q,
{
}

/// The conversions between a transparent color and its component tuple by
/// `From` undo each other, in both orders.
pub proof fn lemma_luva_from_round_trip<Wp, T, A>(c: Alpha<Luv<Wp, T>, A>, q: (T, T, T, A))
    ensures
        <Alpha<Luv<Wp, T>, A> as FromSpec<(T, T, T, A)>>::obeys_from_spec(),
        <(T, T, T, A) as FromSpec<Alpha<Luv<Wp, T>, A>>>::obeys_from_spec(),
        <Alpha<Luv<Wp, T>, A> as FromSpec<(T, T, T, A)>>::from_spec(
            <(T, T, T, A) as FromSpec<Alpha<Luv<Wp, T>, A>>>::from_spec(c),
        ) == c,
        <(T, T, T, A) as FromSpec<Alpha<Luv<Wp, T>, A>>>::from_spec(
            <Alpha<Luv<Wp, T>, A> as FromSpec<(T, T, T, A)>>::from_spec(q),
        ) == q,
{
}

/// A color built from a tuple holds the tuple's entries in order, as
/// `L*`, `u*` and `v*`, and its component tuple lists its own fields in that
/// order; the `From` conversions do the same.
pub proof fn lemma_luv_components_are_fields<Wp, T>(c: Luv<Wp, T>, t: (T, T, T))
    ensures
        Luv::<Wp, T>::from_triple(t).l == t.0,
        Luv::<Wp, T>::from_triple(t).u == t.1,
        Luv::<Wp, T>::from_triple(t).v == t.2,
        c.triple() == (c.l, c.u, c.v),
        <Luv<Wp, T> as FromSpec<(T, T, T)>>::from_spec(t).l == t.0,
        <Luv<Wp, T> as FromSpec<(T, T, T)>>::from_spec(t).u == t.1,
        <Luv<Wp, T> as FromSpec<(T, T, T)>>::from_spec(t).v == t.2,
        <(T, T, T) as FromSpec<Luv<Wp, T>>>::from_spec(c) == (c.l, c.u, c.v),
{
}

/// A transparent color built from a tuple holds the tuple's entries in order,
/// as `L*`, `u*`, `v*` and alpha, and its component tuple lists its own fields
/// in that order; the `From` conversions do the same.
pub proof fn lemma_luva_components_are_fields<Wp, T, A>(c: Alpha<Luv<Wp, T>, A>, q: (T, T, T, A))
    ensures
        Alpha::<Luv<Wp, T>, A>::from_quadruple(q).color.l == q.0,
        Alpha::<Luv<Wp, T>, A>::from_quadruple(q).color.u == q.1,
        Alpha::<Luv<Wp, T>, A>::from_quadruple(q).color.v == q.2,
        Alpha::<Luv<Wp, T>, A>::from_quadruple(q).alpha == q.3,
        c.quadruple() == (c.color.l, c.color.u, c.color.v, c.alpha),
        <Alpha<Luv<Wp, T>, A> as FromSpec<(T, T, T, A)>>::from_spec(q).color.l == q.0,
        <Alpha<Luv<Wp, T>, A> as FromSpec<(T, T, T, A)>>::from_spec(q).color.u == q.1,
        <Alpha<Luv<Wp, T>, A> as FromSpec<(T, T, T, A)>>::from_spec(q).color.v == q.2,
        <Alpha<Luv<Wp, T>, A> as FromSpec<(T, T, T, A)>>::from_spec(q).alpha == q.3,
        <(T, T, T, A) as FromSpec<Alpha<Luv<Wp, T>, A>>>::from_spec(c) == (
            c.color.l,
            c.color.u,
            c.color.v,
            c.alpha,
        ),
{
}

/// Two colors are equal exactly when each field equals the same field of the
/// other, by the component type's equality; equality follows its spec
/// whenever the component type's does.
pub proof fn lemma_eq_is_componentwise<Wp, T: PartialEq>(a: Luv<Wp, T>, b: Luv<Wp, T>)
    ensures
        <Luv<Wp, T> as PartialEqSpec>::obeys_eq_spec() == T::obeys_eq_spec(),
        a.eq_spec(&b) <==> (a.l.eq_spec(&b.l) && a.u.eq_spec(&b.u) && a.v.eq_spec(&b.v)),
{
}

} // verus!
