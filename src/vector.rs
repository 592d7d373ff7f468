//! A three-component vector with componentwise arithmetic.
use vstd::prelude::*;
use crate::scalar::Scalar;

verus! {

/// A vector of three scalars. Every operator returns a new value and leaves
/// its operands as they were.
#[derive(Clone, Copy, Debug)]
pub struct Vector3<T> {
    pub x: T,
    pub y: T,
    pub z: T,
}

impl<T> Vector3<T> {
    pub fn new(x: T, y: T, z: T) -> (r: Self)
        ensures
            r.x == x,
            r.y == y,
            r.z == z,
    {
        Vector3 { x, y, z }
    }
}

impl<T: Scalar> Vector3<T> {
    /// The vector whose components are all zero.
    pub open spec fn zero() -> Self {
        Vector3 { x: T::lit_spec(0), y: T::lit_spec(0), z: T::lit_spec(0) }
    }

    /// Componentwise sum.
    pub open spec fn plus(self, rhs: Self) -> Self {
        Vector3 { x: self.x.plus_spec(rhs.x), y: self.y.plus_spec(rhs.y), z: self.z.plus_spec(rhs.z) }
    }

    /// Componentwise difference.
    pub open spec fn minus(self, rhs: Self) -> Self {
        Vector3 {
            x: self.x.minus_spec(rhs.x),
            y: self.y.minus_spec(rhs.y),
            z: self.z.minus_spec(rhs.z),
        }
    }

    /// Componentwise product.
    pub open spec fn times(self, rhs: Self) -> Self {
        Vector3 {
            x: self.x.times_spec(rhs.x),
            y: self.y.times_spec(rhs.y),
            z: self.z.times_spec(rhs.z),
        }
    }

    /// Componentwise quotient.
    pub open spec fn over(self, rhs: Self) -> Self {
        Vector3 {
            x: self.x.over_spec(rhs.x),
            y: self.y.over_spec(rhs.y),
            z: self.z.over_spec(rhs.z),
        }
    }

    /// Every component multiplied by one scalar.
    pub open spec fn scaled(self, s: T) -> Self {
        Vector3 { x: self.x.times_spec(s), y: self.y.times_spec(s), z: self.z.times_spec(s) }
    }

    /// Every component divided by one scalar.
    pub open spec fn divided(self, s: T) -> Self {
        Vector3 { x: self.x.over_spec(s), y: self.y.over_spec(s), z: self.z.over_spec(s) }
    }

    /// No component is zero, so the vector may be a divisor.
    pub open spec fn all_nonzero(self) -> bool {
        &&& self.x != T::lit_spec(0)
        &&& self.y != T::lit_spec(0)
        &&& self.z != T::lit_spec(0)
    }

    pub fn zeros() -> (r: Self)
        ensures
            r == Self::zero(),
    {
        Vector3 { x: T::lit(0), y: T::lit(0), z: T::lit(0) }
    }
}

impl<T: Scalar> core::ops::Add<Vector3<T>> for Vector3<T> {
    type Output = Vector3<T>;

    fn add(self, rhs: Vector3<T>) -> Vector3<T> {
        Vector3 { x: self.x.plus(rhs.x), y: self.y.plus(rhs.y), z: self.z.plus(rhs.z) }
    }
}

impl<T: Scalar> vstd::std_specs::ops::AddSpecImpl<Vector3<T>> for Vector3<T> {
    open spec fn obeys_add_spec() -> bool {
        true
    }

    open spec fn add_req(self, rhs: Vector3<T>) -> bool {
        true
    }

    open spec fn add_spec(self, rhs: Vector3<T>) -> Vector3<T> {
        self.plus(rhs)
    }
}

impl<T: Scalar> core::ops::Sub<Vector3<T>> for Vector3<T> {
    type Output = Vector3<T>;

    fn sub(self, rhs: Vector3<T>) -> Vector3<T> {
        Vector3 { x: self.x.minus(rhs.x), y: self.y.minus(rhs.y), z: self.z.minus(rhs.z) }
    }
}

impl<T: Scalar> vstd::std_specs::ops::SubSpecImpl<Vector3<T>> for Vector3<T> {
    open spec fn obeys_sub_spec() -> bool {
        true
    }

    open spec fn sub_req(self, rhs: Vector3<T>) -> bool {
        true
    }

    open spec fn sub_spec(self, rhs: Vector3<T>) -> Vector3<T> {
        self.minus(rhs)
    }
}

impl<T: Scalar> core::ops::Mul<Vector3<T>> for Vector3<T> {
    type Output = Vector3<T>;

    fn mul(self, rhs: Vector3<T>) -> Vector3<T> {
        Vector3 { x: self.x.times(rhs.x), y: self.y.times(rhs.y), z: self.z.times(rhs.z) }
    }
}

impl<T: Scalar> vstd::std_specs::ops::MulSpecImpl<Vector3<T>> for Vector3<T> {
    open spec fn obeys_mul_spec() -> bool {
        true
    }

    open spec fn mul_req(self, rhs: Vector3<T>) -> bool {
        true
    }

    open spec fn mul_spec(self, rhs: Vector3<T>) -> Vector3<T> {
        self.times(rhs)
    }
}

impl<T: Scalar> core::ops::Mul<T> for Vector3<T> {
    type Output = Vector3<T>;

    fn mul(self, rhs: T) -> Vector3<T> {
        Vector3 { x: self.x.times(rhs), y: self.y.times(rhs), z: self.z.times(rhs) }
    }
}

impl<T: Scalar> vstd::std_specs::ops::MulSpecImpl<T> for Vector3<T> {
    open spec fn obeys_mul_spec() -> bool {
        true
    }

    open spec fn mul_req(self, rhs: T) -> bool {
        true
    }

    open spec fn mul_spec(self, rhs: T) -> Vector3<T> {
        self.scaled(rhs)
    }
}

impl<T: Scalar> core::ops::Div<Vector3<T>> for Vector3<T> {
    type Output = Vector3<T>;

    fn div(self, rhs: Vector3<T>) -> Vector3<T> {
        Vector3 { x: self.x.over(rhs.x), y: self.y.over(rhs.y), z: self.z.over(rhs.z) }
    }
}

impl<T: Scalar> vstd::std_specs::ops::DivSpecImpl<Vector3<T>> for Vector3<T> {
    open spec fn obeys_div_spec() -> bool {
        true
    }

    open spec fn div_req(self, rhs: Vector3<T>) -> bool {
        rhs.all_nonzero()
    }

    open spec fn div_spec(self, rhs: Vector3<T>) -> Vector3<T> {
        self.over(rhs)
    }
}

impl<T: Scalar> core::ops::Div<T> for Vector3<T> {
    type Output = Vector3<T>;

    fn div(self, rhs: T) -> Vector3<T> {
        Vector3 { x: self.x.over(rhs), y: self.y.over(rhs), z: self.z.over(rhs) }
    }
}

impl<T: Scalar> vstd::std_specs::ops::DivSpecImpl<T> for Vector3<T> {
    open spec fn obeys_div_spec() -> bool {
        true
    }

    open spec fn div_req(self, rhs: T) -> bool {
        rhs != T::lit_spec(0)
    }

    open spec fn div_spec(self, rhs: T) -> Vector3<T> {
        self.divided(rhs)
    }
}

/// Vector addition is commutative.
pub proof fn lemma_add_commutative<T: Scalar>(u: Vector3<T>, v: Vector3<T>)
    ensures
        u.plus(v) == v.plus(u),
{
    T::lemma_plus_commutative(u.x, v.x);
    T::lemma_plus_commutative(u.y, v.y);
    T::lemma_plus_commutative(u.z, v.z);
}

/// Vector addition is associative.
pub proof fn lemma_add_associative<T: Scalar>(u: Vector3<T>, v: Vector3<T>, w: Vector3<T>)
    ensures
        u.plus(v).plus(w) == u.plus(v.plus(w)),
{
    T::lemma_plus_associative(u.x, v.x, w.x);
    T::lemma_plus_associative(u.y, v.y, w.y);
    T::lemma_plus_associative(u.z, v.z, w.z);
}

/// Multiplying a vector by the scalar one leaves it unchanged.
pub proof fn lemma_scale_by_one<T: Scalar>(u: Vector3<T>)
    ensures
        u.scaled(T::lit_spec(1)) == u,
{
    T::lemma_times_one(u.x);
    T::lemma_times_one(u.y);
    T::lemma_times_one(u.z);
}

/// Dividing a vector by the scalar one leaves it unchanged.
pub proof fn lemma_divide_by_one<T: Scalar>(u: Vector3<T>)
    ensures
        u.divided(T::lit_spec(1)) == u,
{
    T::lemma_over_one(u.x);
    T::lemma_over_one(u.y);
    T::lemma_over_one(u.z);
}

} // verus!
