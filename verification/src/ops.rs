use core::marker::PhantomData;
use core::ops::{Add, Div, Mul, Sub};
use vstd::prelude::*;
use vstd::std_specs::ops::{AddSpec, DivSpec, MulSpec, SubSpec};

use crate::luv::Luv;

verus! {

/// Every clone of a `T` equals the value it was cloned from, as for the
/// component types that are `Copy`.
pub open spec fn clone_is_exact<T: Clone>() -> bool {
    forall|a: T, b: T| #[trigger] cloned(a, b) ==> a == b
}

impl<Wp, T: Add<Output = T>> Add<Luv<Wp, T>> for Luv<Wp, T> {
    type Output = Luv<Wp, T>;

    /// Componentwise sum of two colors.
    fn add(self, other: Luv<Wp, T>) -> (res: Luv<Wp, T>)
        ensures
            T::obeys_add_spec() ==> res.l == self.l.add_spec(other.l),
            T::obeys_add_spec() ==> res.u == self.u.add_spec(other.u),
            T::obeys_add_spec() ==> res.v == self.v.add_spec(other.v),
    {
        Luv {
            l: self.l + other.l,
            u: self.u + other.u,
            v: self.v + other.v,
            white_point: PhantomData,
        }
    }
}

impl<Wp, T: Add<Output = T>> vstd::std_specs::ops::AddSpecImpl<Luv<Wp, T>> for Luv<Wp, T> {
    open spec fn obeys_add_spec() -> bool {
        T::obeys_add_spec()
    }

    open spec fn add_req(self, other: Luv<Wp, T>) -> bool {
        &&& self.l.add_req(other.l)
        &&& self.u.add_req(other.u)
        &&& self.v.add_req(other.v)
    }

    open spec fn add_spec(self, other: Luv<Wp, T>) -> Luv<Wp, T> {
        Luv {
            l: self.l.add_spec(other.l),
            u: self.u.add_spec(other.u),
            v: self.v.add_spec(other.v),
            white_point: PhantomData,
        }
    }
}

impl<Wp, T: Add<Output = T> + Clone> Add<T> for Luv<Wp, T> {
    type Output = Luv<Wp, T>;

    /// The sum of each component with the scalar `c`.
    fn add(self, c: T) -> (res: Luv<Wp, T>)
        ensures
            T::obeys_add_spec() && clone_is_exact::<T>() ==> res.l == self.l.add_spec(c),
            T::obeys_add_spec() && clone_is_exact::<T>() ==> res.u == self.u.add_spec(c),
            T::obeys_add_spec() && clone_is_exact::<T>() ==> res.v == self.v.add_spec(c),
    {
        let cl = c.clone();
        let cu = c.clone();
        let cv = c.clone();
        assert(cloned(c, cl) && cloned(c, cu) && cloned(c, cv));
        Luv { l: self.l + cl, u: self.u + cu, v: self.v + cv, white_point: PhantomData }
    }
}

impl<Wp, T: Add<Output = T> + Clone> vstd::std_specs::ops::AddSpecImpl<T> for Luv<Wp, T> {
    open spec fn obeys_add_spec() -> bool {
        T::obeys_add_spec() && clone_is_exact::<T>()
    }

    open spec fn add_req(self, c: T) -> bool {
        forall|d: T|
            #[trigger] cloned(c, d) ==> {
                &&& self.l.add_req(d)
                &&& self.u.add_req(d)
                &&& self.v.add_req(d)
            }
    }

    open spec fn add_spec(self, c: T) -> Luv<Wp, T> {
        Luv {
            l: self.l.add_spec(c),
            u: self.u.add_spec(c),
            v: self.v.add_spec(c),
            white_point: PhantomData,
        }
    }
}

impl<Wp, T: Sub<Output = T>> Sub<Luv<Wp, T>> for Luv<Wp, T> {
    type Output = Luv<Wp, T>;

    /// Componentwise difference of two colors.
    fn sub(self, other: Luv<Wp, T>) -> (res: Luv<Wp, T>)
        ensures
            T::obeys_sub_spec() ==> res.l == self.l.sub_spec(other.l),
            T::obeys_sub_spec() ==> res.u == self.u.sub_spec(other.u),
            T::obeys_sub_spec() ==> res.v == self.v.sub_spec(other.v),
    {
        Luv {
            l: self.l - other.l,
            u: self.u - other.u,
            v: self.v - other.v,
            white_point: PhantomData,
        }
    }
}

impl<Wp, T: Sub<Output = T>> vstd::std_specs::ops::SubSpecImpl<Luv<Wp, T>> for Luv<Wp, T> {
    open spec fn obeys_sub_spec() -> bool {
        T::obeys_sub_spec()
    }

    open spec fn sub_req(self, other: Luv<Wp, T>) -> bool {
        &&& self.l.sub_req(other.l)
        &&& self.u.sub_req(other.u)
        &&& self.v.sub_req(other.v)
    }

    open spec fn sub_spec(self, other: Luv<Wp, T>) -> Luv<Wp, T> {
        Luv {
            l: self.l.sub_spec(other.l),
            u: self.u.sub_spec(other.u),
            v: self.v.sub_spec(other.v),
            white_point: PhantomData,
        }
    }
}

impl<Wp, T: Sub<Output = T> + Clone> Sub<T> for Luv<Wp, T> {
    type Output = Luv<Wp, T>;

    /// The difference of each component with the scalar `c`.
    fn sub(self, c: T) -> (res: Luv<Wp, T>)
        ensures
            T::obeys_sub_spec() && clone_is_exact::<T>() ==> res.l == self.l.sub_spec(c),
            T::obeys_sub_spec() && clone_is_exact::<T>() ==> res.u == self.u.sub_spec(c),
            T::obeys_sub_spec() && clone_is_exact::<T>() ==> res.v == self.v.sub_spec(c),
    {
        let cl = c.clone();
        let cu = c.clone();
        let cv = c.clone();
        assert(cloned(c, cl) && cloned(c, cu) && cloned(c, cv));
        Luv { l: self.l - cl, u: self.u - cu, v: self.v - cv, white_point: PhantomData }
    }
}

impl<Wp, T: Sub<Output = T> + Clone> vstd::std_specs::ops::SubSpecImpl<T> for Luv<Wp, T> {
    open spec fn obeys_sub_spec() -> bool {
        T::obeys_sub_spec() && clone_is_exact::<T>()
    }

    open spec fn sub_req(self, c: T) -> bool {
        forall|d: T|
            #[trigger] cloned(c, d) ==> {
                &&& self.l.sub_req(d)
                &&& self.u.sub_req(d)
                &&& self.v.sub_req(d)
            }
    }

    open spec fn sub_spec(self, c: T) -> Luv<Wp, T> {
        Luv {
            l: self.l.sub_spec(c),
            u: self.u.sub_spec(c),
            v: self.v.sub_spec(c),
            white_point: PhantomData,
        }
    }
}

impl<Wp, T: Mul<Output = T>> Mul<Luv<Wp, T>> for Luv<Wp, T> {
    type Output = Luv<Wp, T>;

    /// Componentwise product of two colors.
    fn mul(self, other: Luv<Wp, T>) -> (res: Luv<Wp, T>)
        ensures
            T::obeys_mul_spec() ==> res.l == self.l.mul_spec(other.l),
            T::obeys_mul_spec() ==> res.u == self.u.mul_spec(other.u),
            T::obeys_mul_spec() ==> res.v == self.v.mul_spec(other.v),
    {
        Luv {
            l: self.l * other.l,
            u: self.u * other.u,
            v: self.v * other.v,
            white_point: PhantomData,
        }
    }
}

impl<Wp, T: Mul<Output = T>> vstd::std_specs::ops::MulSpecImpl<Luv<Wp, T>> for Luv<Wp, T> {
    open spec fn obeys_mul_spec() -> bool {
        T::obeys_mul_spec()
    }

    open spec fn mul_req(self, other: Luv<Wp, T>) -> bool {
        &&& self.l.mul_req(other.l)
        &&& self.u.mul_req(other.u)
        &&& self.v.mul_req(other.v)
    }

    open spec fn mul_spec(self, other: Luv<Wp, T>) -> Luv<Wp, T> {
        Luv {
            l: self.l.mul_spec(other.l),
            u: self.u.mul_spec(other.u),
            v: self.v.mul_spec(other.v),
            white_point: PhantomData,
        }
    }
}

impl<Wp, T: Mul<Output = T> + Clone> Mul<T> for Luv<Wp, T> {
    type Output = Luv<Wp, T>;

    /// The product of each component with the scalar `c`.
    fn mul(self, c: T) -> (res: Luv<Wp, T>)
        ensures
            T::obeys_mul_spec() && clone_is_exact::<T>() ==> res.l == self.l.mul_spec(c),
            T::obeys_mul_spec() && clone_is_exact::<T>() ==> res.u == self.u.mul_spec(c),
            T::obeys_mul_spec() && clone_is_exact::<T>() ==> res.v == self.v.mul_spec(c),
    {
        let cl = c.clone();
        let cu = c.clone();
        let cv = c.clone();
        assert(cloned(c, cl) && cloned(c, cu) && cloned(c, cv));
        Luv { l: self.l * cl, u: self.u * cu, v: self.v * cv, white_point: PhantomData }
    }
}

impl<Wp, T: Mul<Output = T> + Clone> vstd::std_specs::ops::MulSpecImpl<T> for Luv<Wp, T> {
    open spec fn obeys_mul_spec() -> bool {
        T::obeys_mul_spec() && clone_is_exact::<T>()
    }

    open spec fn mul_req(self, c: T) -> bool {
        forall|d: T|
            #[trigger] cloned(c, d) ==> {
                &&& self.l.mul_req(d)
                &&& self.u.mul_req(d)
                &&& self.v.mul_req(d)
            }
    }

    open spec fn mul_spec(self, c: T) -> Luv<Wp, T> {
        Luv {
            l: self.l.mul_spec(c),
            u: self.u.mul_spec(c),
            v: self.v.mul_spec(c),
            white_point: PhantomData,
        }
    }
}

impl<Wp, T: Div<Output = T>> Div<Luv<Wp, T>> for Luv<Wp, T> {
    type Output = Luv<Wp, T>;

    /// Componentwise quotient of two colors.
    fn div(self, other: Luv<Wp, T>) -> (res: Luv<Wp, T>)
        ensures
            T::obeys_div_spec() ==> res.l == self.l.div_spec(other.l),
            T::obeys_div_spec() ==> res.u == self.u.div_spec(other.u),
            T::obeys_div_spec() ==> res.v == self.v.div_spec(other.v),
    {
        Luv {
            l: self.l / other.l,
            u: self.u / other.u,
            v: self.v / other.v,
            white_point: PhantomData,
        }
    }
}

impl<Wp, T: Div<Output = T>> vstd::std_specs::ops::DivSpecImpl<Luv<Wp, T>> for Luv<Wp, T> {
    open spec fn obeys_div_spec() -> bool {
        T::obeys_div_spec()
    }

    open spec fn div_req(self, other: Luv<Wp, T>) -> bool {
        &&& self.l.div_req(other.l)
        &&& self.u.div_req(other.u)
        &&& self.v.div_req(other.v)
    }

    open spec fn div_spec(self, other: Luv<Wp, T>) -> Luv<Wp, T> {
        Luv {
            l: self.l.div_spec(other.l),
            u: self.u.div_spec(other.u),
            v: self.v.div_spec(other.v),
            white_point: PhantomData,
        }
    }
}

impl<Wp, T: Div<Output = T> + Clone> Div<T> for Luv<Wp, T> {
    type Output = Luv<Wp, T>;

    /// The quotient of each component with the scalar `c`.
    fn div(self, c: T) -> (res: Luv<Wp, T>)
        ensures
            T::obeys_div_spec() && clone_is_exact::<T>() ==> res.l == self.l.div_spec(c),
            T::obeys_div_spec() && clone_is_exact::<T>() ==> res.u == self.u.div_spec(c),
            T::obeys_div_spec() && clone_is_exact::<T>() ==> res.v == self.v.div_spec(c),
    {
        let cl = c.clone();
        let cu = c.clone();
        let cv = c.clone();
        assert(cloned(c, cl) && cloned(c, cu) && cloned(c, cv));
        Luv { l: self.l / cl, u: self.u / cu, v: self.v / cv, white_point: PhantomData }
    }
}

impl<Wp, T: Div<Output = T> + Clone> vstd::std_specs::ops::DivSpecImpl<T> for Luv<Wp, T> {
    open spec fn obeys_div_spec() -> bool {
        T::obeys_div_spec() && clone_is_exact::<T>()
    }

    open spec fn div_req(self, c: T) -> bool {
        forall|d: T|
            #[trigger] cloned(c, d) ==> {
                &&& self.l.div_req(d)
                &&& self.u.div_req(d)
                &&& self.v.div_req(d)
            }
    }

    open spec fn div_spec(self, c: T) -> Luv<Wp, T> {
        Luv {
            l: self.l.div_spec(c),
            u: self.u.div_spec(c),
            v: self.v.div_spec(c),
            white_point: PhantomData,
        }
    }
}

/// The sum of two colors is taken field by field: each field of `a + b`
/// is the sum of the same field of `a` and `b`, and it is defined exactly
/// where each of those field operations is.
pub proof fn lemma_add_is_componentwise<Wp, T: Add<Output = T>>(a: Luv<Wp, T>, b: Luv<Wp, T>)
    ensures
        <Luv<Wp, T> as AddSpec<Luv<Wp, T>>>::obeys_add_spec() == T::obeys_add_spec(),
        a.add_req(b) <==> (a.l.add_req(b.l) && a.u.add_req(b.u) && a.v.add_req(b.v)),
        a.add_spec(b).l == a.l.add_spec(b.l),
        a.add_spec(b).u == a.u.add_spec(b.u),
        a.add_spec(b).v == a.v.add_spec(b.v),
{
}

/// The sum of a color with a scalar applies the scalar to every field:
/// each field of `a + c` is the sum of that field of `a` with `c`.
pub proof fn lemma_scalar_add_is_componentwise<Wp, T: Add<Output = T> + Clone>(a: Luv<Wp, T>, c: T)
    ensures
        <Luv<Wp, T> as AddSpec<T>>::obeys_add_spec() == (T::obeys_add_spec() && clone_is_exact::<T>()),
        a.add_spec(c).l == a.l.add_spec(c),
        a.add_spec(c).u == a.u.add_spec(c),
        a.add_spec(c).v == a.v.add_spec(c),
{
}

/// The difference of two colors is taken field by field: each field of `a - b`
/// is the difference of the same field of `a` and `b`, and it is defined exactly
/// where each of those field operations is.
pub proof fn lemma_sub_is_componentwise<Wp, T: Sub<Output = T>>(a: Luv<Wp, T>, b: Luv<Wp, T>)
    ensures
        <Luv<Wp, T> as SubSpec<Luv<Wp, T>>>::obeys_sub_spec() == T::obeys_sub_spec(),
        a.sub_req(b) <==> (a.l.sub_req(b.l) && a.u.sub_req(b.u) && a.v.sub_req(b.v)),
        a.sub_spec(b).l == a.l.sub_spec(b.l),
        a.sub_spec(b).u == a.u.sub_spec(b.u),
        a.sub_spec(b).v == a.v.sub_spec(b.v),
{
}

/// The difference of a color with a scalar applies the scalar to every field:
/// each field of `a - c` is the difference of that field of `a` with `c`.
pub proof fn lemma_scalar_sub_is_componentwise<Wp, T: Sub<Output = T> + Clone>(a: Luv<Wp, T>, c: T)
    ensures
        <Luv<Wp, T> as SubSpec<T>>::obeys_sub_spec() == (T::obeys_sub_spec() && clone_is_exact::<T>()),
        a.sub_spec(c).l == a.l.sub_spec(c),
        a.sub_spec(c).u == a.u.sub_spec(c),
        a.sub_spec(c).v == a.v.sub_spec(c),
{
}

/// The product of two colors is taken field by field: each field of `a * b`
/// is the product of the same field of `a` and `b`, and it is defined exactly
/// where each of those field operations is.
pub proof fn lemma_mul_is_componentwise<Wp, T: Mul<Output = T>>(a: Luv<Wp, T>, b: Luv<Wp, T>)
    ensures
        <Luv<Wp, T> as MulSpec<Luv<Wp, T>>>::obeys_mul_spec() == T::obeys_mul_spec(),
        a.mul_req(b) <==> (a.l.mul_req(b.l) && a.u.mul_req(b.u) && a.v.mul_req(b.v)),
        a.mul_spec(b).l == a.l.mul_spec(b.l),
        a.mul_spec(b).u == a.u.mul_spec(b.u),
        a.mul_spec(b).v == a.v.mul_spec(b.v),
{
}

/// The product of a color with a scalar applies the scalar to every field:
/// each field of `a * c` is the product of that field of `a` with `c`.
pub proof fn lemma_scalar_mul_is_componentwise<Wp, T: Mul<Output = T> + Clone>(a: Luv<Wp, T>, c: T)
    ensures
        <Luv<Wp, T> as MulSpec<T>>::obeys_mul_spec() == (T::obeys_mul_spec() && clone_is_exact::<T>()),
        a.mul_spec(c).l == a.l.mul_spec(c),
        a.mul_spec(c).u == a.u.mul_spec(c),
        a.mul_spec(c).v == a.v.mul_spec(c),
{
}

/// The quotient of two colors is taken field by field: each field of `a / b`
/// is the quotient of the same field of `a` and `b`, and it is defined exactly
/// where each of those field operations is.
pub proof fn lemma_div_is_componentwise<Wp, T: Div<Output = T>>(a: Luv<Wp, T>, b: Luv<Wp, T>)
    ensures
        <Luv<Wp, T> as DivSpec<Luv<Wp, T>>>::obeys_div_spec() == T::obeys_div_spec(),
        a.div_req(b) <==> (a.l.div_req(b.l) && a.u.div_req(b.u) && a.v.div_req(b.v)),
        a.div_spec(b).l == a.l.div_spec(b.l),
        a.div_spec(b).u == a.u.div_spec(b.u),
        a.div_spec(b).v == a.v.div_spec(b.v),
{
}

/// The quotient of a color with a scalar applies the scalar to every field:
/// each field of `a / c` is the quotient of that field of `a` with `c`.
pub proof fn lemma_scalar_div_is_componentwise<Wp, T: Div<Output = T> + Clone>(a: Luv<Wp, T>, c: T)
    ensures
        <Luv<Wp, T> as DivSpec<T>>::obeys_div_spec() == (T::obeys_div_spec() && clone_is_exact::<T>()),
        a.div_spec(c).l == a.l.div_spec(c),
        a.div_spec(c).u == a.u.div_spec(c),
        a.div_spec(c).v == a.v.div_spec(c),
{
}

} // verus!
