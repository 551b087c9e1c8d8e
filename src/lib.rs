//! Small value types with negation, scaling and conversion operators.
//!
//! `Scalar` wraps one `i32` and `Point` wraps two. Negation is offered on a
//! `Scalar` by value and by reference, scaling of a `Point` by a `Scalar` in
//! either operand order, and a conversion from a `Scalar` reference into a
//! `Container` of either marker type.
//!
//! Each operator states through vstd's operator specifications what it returns
//! and on which inputs it is defined: those whose result fits in an `i32`.
use std::ops::{Mul, Neg};
use vstd::arithmetic::mul::lemma_mul_is_commutative;
use vstd::prelude::*;
use vstd::std_specs::ops::{MulSpec, NegSpec};

verus! {

/// A simple scalar type.
#[derive(Clone, Copy, Debug)]
pub struct Scalar(pub i32);

/// A simple point type.
#[derive(Clone, Copy, Debug)]
pub struct Point(pub i32, pub i32);

/// A generic container holding one value.
#[derive(Debug)]
pub struct Container<T> {
    pub value: T,
}

/// Marker type A.
#[derive(Debug, Clone, Copy)]
pub struct TypeA;

/// Marker type B.
#[derive(Debug, Clone, Copy)]
pub struct TypeB;

/// Whether `v` fits in an `i32`.
pub open spec fn fits_i32(v: int) -> bool {
    i32::MIN <= v <= i32::MAX
}

/// The negation of `s`, defined where `-s.0` fits in an `i32`.
pub open spec fn neg_of(s: Scalar) -> Scalar {
    Scalar((-s.0) as i32)
}

/// `p` with each coordinate multiplied by `k`.
pub open spec fn scaled(p: Point, k: int) -> Point {
    Point((p.0 * k) as i32, (p.1 * k) as i32)
}

/// Whether both coordinates of `p` times `k` fit in an `i32`.
pub open spec fn scale_fits(p: Point, k: int) -> bool {
    fits_i32(p.0 * k) && fits_i32(p.1 * k)
}

impl Neg for Scalar {
    type Output = Scalar;

    fn neg(self) -> (r: Scalar)
        ensures
            r == neg_of(self),
    {
        Scalar(-self.0)
    }
}

impl vstd::std_specs::ops::NegSpecImpl for Scalar {
    open spec fn obeys_neg_spec() -> bool {
        true
    }

    open spec fn neg_req(self) -> bool {
        fits_i32(-self.0)
    }

    open spec fn neg_spec(self) -> Scalar {
        neg_of(self)
    }
}

impl Neg for &Scalar {
    type Output = Scalar;

    fn neg(self) -> (r: Scalar)
        ensures
            r == neg_of(*self),
    {
        Scalar(-self.0)
    }
}

impl vstd::std_specs::ops::NegSpecImpl for &Scalar {
    open spec fn obeys_neg_spec() -> bool {
        true
    }

    open spec fn neg_req(self) -> bool {
        fits_i32(-self.0)
    }

    open spec fn neg_spec(self) -> Scalar {
        neg_of(*self)
    }
}

impl Mul<&Scalar> for &Point {
    type Output = Point;

    /// Multiplies each coordinate of the point by the scalar.
    fn mul(self, scalar: &Scalar) -> (r: Point)
        ensures
            r == scaled(*self, scalar.0 as int),
    {
        Point(self.0 * scalar.0, self.1 * scalar.0)
    }
}

impl vstd::std_specs::ops::MulSpecImpl<&Scalar> for &Point {
    open spec fn obeys_mul_spec() -> bool {
        true
    }

    open spec fn mul_req(self, scalar: &Scalar) -> bool {
        scale_fits(*self, scalar.0 as int)
    }

    open spec fn mul_spec(self, scalar: &Scalar) -> Point {
        scaled(*self, scalar.0 as int)
    }
}

impl Mul<&Point> for &Scalar {
    type Output = Point;

    /// Multiplies the scalar by each coordinate of the point.
    fn mul(self, point: &Point) -> (r: Point)
        ensures
            r == scaled(*point, self.0 as int),
    {
        proof {
            lemma_mul_is_commutative(self.0 as int, point.0 as int);
            lemma_mul_is_commutative(self.0 as int, point.1 as int);
        }
        Point(self.0 * point.0, self.0 * point.1)
    }
}

impl vstd::std_specs::ops::MulSpecImpl<&Point> for &Scalar {
    open spec fn obeys_mul_spec() -> bool {
        true
    }

    open spec fn mul_req(self, point: &Point) -> bool {
        scale_fits(*point, self.0 as int)
    }

    open spec fn mul_spec(self, point: &Point) -> Point {
        scaled(*point, self.0 as int)
    }
}

impl From<&Scalar> for Container<TypeA> {
    fn from(_s: &Scalar) -> (r: Self)
        ensures
            r.value == TypeA,
    {
        Container { value: TypeA }
    }
}

impl vstd::std_specs::convert::FromSpecImpl<&Scalar> for Container<TypeA> {
    open spec fn obeys_from_spec() -> bool {
        true
    }

    open spec fn from_spec(_s: &Scalar) -> Self {
        Container { value: TypeA }
    }
}

impl From<&Scalar> for Container<TypeB> {
    fn from(_s: &Scalar) -> (r: Self)
        ensures
            r.value == TypeB,
    {
        Container { value: TypeB }
    }
}

impl vstd::std_specs::convert::FromSpecImpl<&Scalar> for Container<TypeB> {
    open spec fn obeys_from_spec() -> bool {
        true
    }

    open spec fn from_spec(_s: &Scalar) -> Self {
        Container { value: TypeB }
    }
}

/// Scaling a point by a scalar gives the same point whichever operand comes
/// first, and is defined for the one order exactly when for the other.
pub proof fn lemma_mul_either_order(p: &Point, s: &Scalar)
    ensures
        p.mul_req(s) == s.mul_req(p),
        p.mul_spec(s) == s.mul_spec(p),
{
}

/// Negating a scalar by value and by reference gives the same result, on the
/// same inputs.
pub proof fn lemma_neg_either_form(s: &Scalar)
    ensures
        (*s).neg_req() == s.neg_req(),
        (*s).neg_spec() == s.neg_spec(),
{
}

} // verus!
