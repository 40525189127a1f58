use vstd::prelude::*;
use vstd::std_specs::cmp::PartialEqSpec;
use vstd::std_specs::ops::AddSpec;
use vstd::std_specs::ops::SubSpec;
use vstd::std_specs::ops::MulSpec;
use vstd::std_specs::ops::DivSpec;
use vstd::std_specs::ops::NegSpec;

use crate::float2::Float2;
use crate::float4::Float4;
use crate::scalar;

verus! {

/// Vector of three components of a copyable scalar type `T`.
///
/// Every value of the components is a valid vector. The arithmetic operators
/// work component by component through the scalar type's own operators, so each
/// component of a result is exactly what that scalar operation gives.
#[derive(Clone, Copy, Debug)]
pub struct Float3<T> {
    /// The x-component of the vector.
    pub x: T,
    /// The y-component of the vector.
    pub y: T,
    /// The z-component of the vector.
    pub z: T,
}

impl<T: Copy + core::ops::Add<Output = T>> core::ops::Add<Float3<T>> for Float3<T> {
    type Output = Float3<T>;

    /// Component-wise sum of `self` and the matching components of `rhs`.
    fn add(self, rhs: Float3<T>) -> (r: Float3<T>)
        ensures
            call_ensures(T::add, (self.x, rhs.x), r.x),
            call_ensures(T::add, (self.y, rhs.y), r.y),
            call_ensures(T::add, (self.z, rhs.z), r.z),
    {
        Float3 { x: self.x + rhs.x, y: self.y + rhs.y, z: self.z + rhs.z }
    }
}

impl<T: Copy + core::ops::Add<Output = T>> vstd::std_specs::ops::AddSpecImpl<Float3<T>> for Float3<T> {
    open spec fn obeys_add_spec() -> bool {
        T::obeys_add_spec()
    }

    open spec fn add_req(self, rhs: Float3<T>) -> bool {
        self.x.add_req(rhs.x) && self.y.add_req(rhs.y) && self.z.add_req(rhs.z)
    }

    open spec fn add_spec(self, rhs: Float3<T>) -> Float3<T> {
        Float3 { x: self.x.add_spec(rhs.x), y: self.y.add_spec(rhs.y), z: self.z.add_spec(rhs.z) }
    }
}

impl<T: Copy + core::ops::Add<Output = T>> core::ops::AddAssign<Float3<T>> for Float3<T> {
    /// Replaces each component with its sum with the matching components of `rhs`.
    fn add_assign(&mut self, rhs: Float3<T>)
        requires
            old(self).x.add_req(rhs.x),
            old(self).y.add_req(rhs.y),
            old(self).z.add_req(rhs.z),
        ensures
            call_ensures(T::add, (old(self).x, rhs.x), final(self).x),
            call_ensures(T::add, (old(self).y, rhs.y), final(self).y),
            call_ensures(T::add, (old(self).z, rhs.z), final(self).z),
    {
        self.x = self.x + rhs.x;
        self.y = self.y + rhs.y;
        self.z = self.z + rhs.z;
    }
}

impl<T: Copy + core::ops::Add<Output = T>> core::ops::Add<T> for Float3<T> {
    type Output = Float3<T>;

    /// Component-wise sum of `self` and the scalar `rhs`.
    fn add(self, rhs: T) -> (r: Float3<T>)
        ensures
            call_ensures(T::add, (self.x, rhs), r.x),
            call_ensures(T::add, (self.y, rhs), r.y),
            call_ensures(T::add, (self.z, rhs), r.z),
    {
        Float3 { x: self.x + rhs, y: self.y + rhs, z: self.z + rhs }
    }
}

impl<T: Copy + core::ops::Add<Output = T>> vstd::std_specs::ops::AddSpecImpl<T> for Float3<T> {
    open spec fn obeys_add_spec() -> bool {
        T::obeys_add_spec()
    }

    open spec fn add_req(self, rhs: T) -> bool {
        self.x.add_req(rhs) && self.y.add_req(rhs) && self.z.add_req(rhs)
    }

    open spec fn add_spec(self, rhs: T) -> Float3<T> {
        Float3 { x: self.x.add_spec(rhs), y: self.y.add_spec(rhs), z: self.z.add_spec(rhs) }
    }
}

impl<T: Copy + core::ops::Add<Output = T>> core::ops::AddAssign<T> for Float3<T> {
    /// Replaces each component with its sum with the scalar `rhs`.
    fn add_assign(&mut self, rhs: T)
        requires
            old(self).x.add_req(rhs),
            old(self).y.add_req(rhs),
            old(self).z.add_req(rhs),
        ensures
            call_ensures(T::add, (old(self).x, rhs), final(self).x),
            call_ensures(T::add, (old(self).y, rhs), final(self).y),
            call_ensures(T::add, (old(self).z, rhs), final(self).z),
    {
        self.x = self.x + rhs;
        self.y = self.y + rhs;
        self.z = self.z + rhs;
    }
}

impl<T: Copy + core::ops::Sub<Output = T>> core::ops::Sub<Float3<T>> for Float3<T> {
    type Output = Float3<T>;

    /// Component-wise difference of `self` and the matching components of `rhs`.
    fn sub(self, rhs: Float3<T>) -> (r: Float3<T>)
        ensures
            call_ensures(T::sub, (self.x, rhs.x), r.x),
            call_ensures(T::sub, (self.y, rhs.y), r.y),
            call_ensures(T::sub, (self.z, rhs.z), r.z),
    {
        Float3 { x: self.x - rhs.x, y: self.y - rhs.y, z: self.z - rhs.z }
    }
}

impl<T: Copy + core::ops::Sub<Output = T>> vstd::std_specs::ops::SubSpecImpl<Float3<T>> for Float3<T> {
    open spec fn obeys_sub_spec() -> bool {
        T::obeys_sub_spec()
    }

    open spec fn sub_req(self, rhs: Float3<T>) -> bool {
        self.x.sub_req(rhs.x) && self.y.sub_req(rhs.y) && self.z.sub_req(rhs.z)
    }

    open spec fn sub_spec(self, rhs: Float3<T>) -> Float3<T> {
        Float3 { x: self.x.sub_spec(rhs.x), y: self.y.sub_spec(rhs.y), z: self.z.sub_spec(rhs.z) }
    }
}

impl<T: Copy + core::ops::Sub<Output = T>> core::ops::SubAssign<Float3<T>> for Float3<T> {
    /// Replaces each component with its difference with the matching components of `rhs`.
    fn sub_assign(&mut self, rhs: Float3<T>)
        requires
            old(self).x.sub_req(rhs.x),
            old(self).y.sub_req(rhs.y),
            old(self).z.sub_req(rhs.z),
        ensures
            call_ensures(T::sub, (old(self).x, rhs.x), final(self).x),
            call_ensures(T::sub, (old(self).y, rhs.y), final(self).y),
            call_ensures(T::sub, (old(self).z, rhs.z), final(self).z),
    {
        self.x = self.x - rhs.x;
        self.y = self.y - rhs.y;
        self.z = self.z - rhs.z;
    }
}

impl<T: Copy + core::ops::Sub<Output = T>> core::ops::Sub<T> for Float3<T> {
    type Output = Float3<T>;

    /// Component-wise difference of `self` and the scalar `rhs`.
    fn sub(self, rhs: T) -> (r: Float3<T>)
        ensures
            call_ensures(T::sub, (self.x, rhs), r.x),
            call_ensures(T::sub, (self.y, rhs), r.y),
            call_ensures(T::sub, (self.z, rhs), r.z),
    {
        Float3 { x: self.x - rhs, y: self.y - rhs, z: self.z - rhs }
    }
}

impl<T: Copy + core::ops::Sub<Output = T>> vstd::std_specs::ops::SubSpecImpl<T> for Float3<T> {
    open spec fn obeys_sub_spec() -> bool {
        T::obeys_sub_spec()
    }

    open spec fn sub_req(self, rhs: T) -> bool {
        self.x.sub_req(rhs) && self.y.sub_req(rhs) && self.z.sub_req(rhs)
    }

    open spec fn sub_spec(self, rhs: T) -> Float3<T> {
        Float3 { x: self.x.sub_spec(rhs), y: self.y.sub_spec(rhs), z: self.z.sub_spec(rhs) }
    }
}

impl<T: Copy + core::ops::Sub<Output = T>> core::ops::SubAssign<T> for Float3<T> {
    /// Replaces each component with its difference with the scalar `rhs`.
    fn sub_assign(&mut self, rhs: T)
        requires
            old(self).x.sub_req(rhs),
            old(self).y.sub_req(rhs),
            old(self).z.sub_req(rhs),
        ensures
            call_ensures(T::sub, (old(self).x, rhs), final(self).x),
            call_ensures(T::sub, (old(self).y, rhs), final(self).y),
            call_ensures(T::sub, (old(self).z, rhs), final(self).z),
    {
        self.x = self.x - rhs;
        self.y = self.y - rhs;
        self.z = self.z - rhs;
    }
}

impl<T: Copy + core::ops::Mul<Output = T>> core::ops::Mul<Float3<T>> for Float3<T> {
    type Output = Float3<T>;

    /// Component-wise product of `self` and the matching components of `rhs`.
    fn mul(self, rhs: Float3<T>) -> (r: Float3<T>)
        ensures
            call_ensures(T::mul, (self.x, rhs.x), r.x),
            call_ensures(T::mul, (self.y, rhs.y), r.y),
            call_ensures(T::mul, (self.z, rhs.z), r.z),
    {
        Float3 { x: self.x * rhs.x, y: self.y * rhs.y, z: self.z * rhs.z }
    }
}

impl<T: Copy + core::ops::Mul<Output = T>> vstd::std_specs::ops::MulSpecImpl<Float3<T>> for Float3<T> {
    open spec fn obeys_mul_spec() -> bool {
        T::obeys_mul_spec()
    }

    open spec fn mul_req(self, rhs: Float3<T>) -> bool {
        self.x.mul_req(rhs.x) && self.y.mul_req(rhs.y) && self.z.mul_req(rhs.z)
    }

    open spec fn mul_spec(self, rhs: Float3<T>) -> Float3<T> {
        Float3 { x: self.x.mul_spec(rhs.x), y: self.y.mul_spec(rhs.y), z: self.z.mul_spec(rhs.z) }
    }
}

impl<T: Copy + core::ops::Mul<Output = T>> core::ops::MulAssign<Float3<T>> for Float3<T> {
    /// Replaces each component with its product with the matching components of `rhs`.
    fn mul_assign(&mut self, rhs: Float3<T>)
        requires
            old(self).x.mul_req(rhs.x),
            old(self).y.mul_req(rhs.y),
            old(self).z.mul_req(rhs.z),
        ensures
            call_ensures(T::mul, (old(self).x, rhs.x), final(self).x),
            call_ensures(T::mul, (old(self).y, rhs.y), final(self).y),
            call_ensures(T::mul, (old(self).z, rhs.z), final(self).z),
    {
        self.x = self.x * rhs.x;
        self.y = self.y * rhs.y;
        self.z = self.z * rhs.z;
    }
}

impl<T: Copy + core::ops::Mul<Output = T>> core::ops::Mul<T> for Float3<T> {
    type Output = Float3<T>;

    /// Component-wise product of `self` and the scalar `rhs`.
    fn mul(self, rhs: T) -> (r: Float3<T>)
        ensures
            call_ensures(T::mul, (self.x, rhs), r.x),
            call_ensures(T::mul, (self.y, rhs), r.y),
            call_ensures(T::mul, (self.z, rhs), r.z),
    {
        Float3 { x: self.x * rhs, y: self.y * rhs, z: self.z * rhs }
    }
}

impl<T: Copy + core::ops::Mul<Output = T>> vstd::std_specs::ops::MulSpecImpl<T> for Float3<T> {
    open spec fn obeys_mul_spec() -> bool {
        T::obeys_mul_spec()
    }

    open spec fn mul_req(self, rhs: T) -> bool {
        self.x.mul_req(rhs) && self.y.mul_req(rhs) && self.z.mul_req(rhs)
    }

    open spec fn mul_spec(self, rhs: T) -> Float3<T> {
        Float3 { x: self.x.mul_spec(rhs), y: self.y.mul_spec(rhs), z: self.z.mul_spec(rhs) }
    }
}

impl<T: Copy + core::ops::Mul<Output = T>> core::ops::MulAssign<T> for Float3<T> {
    /// Replaces each component with its product with the scalar `rhs`.
    fn mul_assign(&mut self, rhs: T)
        requires
            old(self).x.mul_req(rhs),
            old(self).y.mul_req(rhs),
            old(self).z.mul_req(rhs),
        ensures
            call_ensures(T::mul, (old(self).x, rhs), final(self).x),
            call_ensures(T::mul, (old(self).y, rhs), final(self).y),
            call_ensures(T::mul, (old(self).z, rhs), final(self).z),
    {
        self.x = self.x * rhs;
        self.y = self.y * rhs;
        self.z = self.z * rhs;
    }
}

impl<T: Copy + core::ops::Div<Output = T>> core::ops::Div<Float3<T>> for Float3<T> {
    type Output = Float3<T>;

    /// Component-wise quotient of `self` and the matching components of `rhs`.
    fn div(self, rhs: Float3<T>) -> (r: Float3<T>)
        ensures
            call_ensures(T::div, (self.x, rhs.x), r.x),
            call_ensures(T::div, (self.y, rhs.y), r.y),
            call_ensures(T::div, (self.z, rhs.z), r.z),
    {
        Float3 { x: self.x / rhs.x, y: self.y / rhs.y, z: self.z / rhs.z }
    }
}

impl<T: Copy + core::ops::Div<Output = T>> vstd::std_specs::ops::DivSpecImpl<Float3<T>> for Float3<T> {
    open spec fn obeys_div_spec() -> bool {
        T::obeys_div_spec()
    }

    open spec fn div_req(self, rhs: Float3<T>) -> bool {
        self.x.div_req(rhs.x) && self.y.div_req(rhs.y) && self.z.div_req(rhs.z)
    }

    open spec fn div_spec(self, rhs: Float3<T>) -> Float3<T> {
        Float3 { x: self.x.div_spec(rhs.x), y: self.y.div_spec(rhs.y), z: self.z.div_spec(rhs.z) }
    }
}

impl<T: Copy + core::ops::Div<Output = T>> core::ops::DivAssign<Float3<T>> for Float3<T> {
    /// Replaces each component with its quotient with the matching components of `rhs`.
    fn div_assign(&mut self, rhs: Float3<T>)
        requires
            old(self).x.div_req(rhs.x),
            old(self).y.div_req(rhs.y),
            old(self).z.div_req(rhs.z),
        ensures
            call_ensures(T::div, (old(self).x, rhs.x), final(self).x),
            call_ensures(T::div, (old(self).y, rhs.y), final(self).y),
            call_ensures(T::div, (old(self).z, rhs.z), final(self).z),
    {
        self.x = self.x / rhs.x;
        self.y = self.y / rhs.y;
        self.z = self.z / rhs.z;
    }
}

impl<T: Copy + core::ops::Div<Output = T>> core::ops::Div<T> for Float3<T> {
    type Output = Float3<T>;

    /// Component-wise quotient of `self` and the scalar `rhs`.
    fn div(self, rhs: T) -> (r: Float3<T>)
        ensures
            call_ensures(T::div, (self.x, rhs), r.x),
            call_ensures(T::div, (self.y, rhs), r.y),
            call_ensures(T::div, (self.z, rhs), r.z),
    {
        Float3 { x: self.x / rhs, y: self.y / rhs, z: self.z / rhs }
    }
}

impl<T: Copy + core::ops::Div<Output = T>> vstd::std_specs::ops::DivSpecImpl<T> for Float3<T> {
    open spec fn obeys_div_spec() -> bool {
        T::obeys_div_spec()
    }

    open spec fn div_req(self, rhs: T) -> bool {
        self.x.div_req(rhs) && self.y.div_req(rhs) && self.z.div_req(rhs)
    }

    open spec fn div_spec(self, rhs: T) -> Float3<T> {
        Float3 { x: self.x.div_spec(rhs), y: self.y.div_spec(rhs), z: self.z.div_spec(rhs) }
    }
}

impl<T: Copy + core::ops::Div<Output = T>> core::ops::DivAssign<T> for Float3<T> {
    /// Replaces each component with its quotient with the scalar `rhs`.
    fn div_assign(&mut self, rhs: T)
        requires
            old(self).x.div_req(rhs),
            old(self).y.div_req(rhs),
            old(self).z.div_req(rhs),
        ensures
            call_ensures(T::div, (old(self).x, rhs), final(self).x),
            call_ensures(T::div, (old(self).y, rhs), final(self).y),
            call_ensures(T::div, (old(self).z, rhs), final(self).z),
    {
        self.x = self.x / rhs;
        self.y = self.y / rhs;
        self.z = self.z / rhs;
    }
}

impl<T: Copy + core::ops::Neg<Output = T>> core::ops::Neg for Float3<T> {
    type Output = Float3<T>;

    /// Negates every component.
    fn neg(self) -> (r: Float3<T>)
        ensures
            call_ensures(T::neg, (self.x,), r.x),
            call_ensures(T::neg, (self.y,), r.y),
            call_ensures(T::neg, (self.z,), r.z),
    {
        Float3 {
            x: core::ops::Neg::neg(self.x),
            y: core::ops::Neg::neg(self.y),
            z: core::ops::Neg::neg(self.z),
        }
    }
}

impl<T: Copy + core::ops::Neg<Output = T>> vstd::std_specs::ops::NegSpecImpl for Float3<T> {
    open spec fn obeys_neg_spec() -> bool {
        T::obeys_neg_spec()
    }

    open spec fn neg_req(self) -> bool {
        self.x.neg_req() && self.y.neg_req() && self.z.neg_req()
    }

    open spec fn neg_spec(self) -> Float3<T> {
        Float3 { x: self.x.neg_spec(), y: self.y.neg_spec(), z: self.z.neg_spec() }
    }
}

impl<T: PartialEq> PartialEq for Float3<T> {
    /// Two vectors are equal when every pair of matching components compares equal
    /// under the scalar type's own `==`; with a scalar that is never equal to itself
    /// (a NaN), the vectors that hold it are never equal either.
    fn eq(&self, rhs: &Float3<T>) -> (r: bool)
        ensures
            r ==> (
                call_ensures(T::eq, (&self.x, &rhs.x), true)
                && call_ensures(T::eq, (&self.y, &rhs.y), true)
                && call_ensures(T::eq, (&self.z, &rhs.z), true)
            ),
            !r ==> (
                call_ensures(T::eq, (&self.x, &rhs.x), false)
                || call_ensures(T::eq, (&self.y, &rhs.y), false)
                || call_ensures(T::eq, (&self.z, &rhs.z), false)
            ),
    {
        self.x == rhs.x && self.y == rhs.y && self.z == rhs.z
    }
}

impl<T: PartialEq> vstd::std_specs::cmp::PartialEqSpecImpl for Float3<T> {
    open spec fn obeys_eq_spec() -> bool {
        T::obeys_eq_spec()
    }

    open spec fn eq_spec(&self, rhs: &Float3<T>) -> bool {
        self.x.eq_spec(&rhs.x) && self.y.eq_spec(&rhs.y) && self.z.eq_spec(&rhs.z)
    }
}

impl<T: Copy> From<T> for Float3<T> {
    /// Broadcasts one scalar to every component.
    fn from(v: T) -> (r: Float3<T>)
        ensures
            r == Float3::<T>::splat(v),
    {
        Float3 { x: v, y: v, z: v }
    }
}

impl<T: Copy> vstd::std_specs::convert::FromSpecImpl<T> for Float3<T> {
    open spec fn obeys_from_spec() -> bool {
        true
    }

    open spec fn from_spec(v: T) -> Float3<T> {
        Float3::<T>::splat(v)
    }
}

impl<T: Copy> From<(T, T, T)> for Float3<T> {
    /// Takes the tuple's elements as the components, in field order.
    fn from(v: (T, T, T)) -> (r: Float3<T>)
        ensures
            r == Float3::<T>::from_tuple(v),
    {
        Float3 { x: v.0, y: v.1, z: v.2 }
    }
}

impl<T: Copy> vstd::std_specs::convert::FromSpecImpl<(T, T, T)> for Float3<T> {
    open spec fn obeys_from_spec() -> bool {
        true
    }

    open spec fn from_spec(v: (T, T, T)) -> Float3<T> {
        Float3::<T>::from_tuple(v)
    }
}

impl<T: Copy + core::ops::Add<Output = T> + core::ops::Mul<Output = T>> Float3<T> {
    /// `r` is a result that the scalar type gives for the dot product of `self` and
    /// `rhs`, summed from the first component to the last.
    pub open spec fn dot_of(self, rhs: Float3<T>, r: T) -> bool {
        exists|p: T, s1: T|
            #[trigger] call_ensures(T::mul, (self.x, rhs.x), p)
                && #[trigger] scalar::product_add_of(p, self.y, rhs.y, s1)
                && #[trigger] scalar::product_add_of(s1, self.z, rhs.z, r)
    }

    /// The scalar type can evaluate every step of the dot product of `self` and `rhs`.
    pub open spec fn dot_req(self, rhs: Float3<T>) -> bool {
        &&& self.x.mul_req(rhs.x)
        &&& forall|p: T| #[trigger] call_ensures(T::mul, (self.x, rhs.x), p) ==> (
            scalar::product_add_req(p, self.y, rhs.y) && forall|s1: T|
                #[trigger] scalar::product_add_of(p, self.y, rhs.y, s1) ==> (
                    scalar::product_add_req(s1, self.z, rhs.z)
                )
        )
    }

    /// Computes the dot product: the sum of the products of matching components.
    pub fn dot(&self, rhs: &Float3<T>) -> (r: T)
        requires
            self.dot_req(*rhs),
        ensures
            self.dot_of(*rhs, r),
    {
        let p = self.x * rhs.x;
        let s1 = scalar::product_add(p, self.y, rhs.y);
        let r = scalar::product_add(s1, self.z, rhs.z);
        r
    }

    /// Computes the component-wise multiply-add `self * b + c`.
    pub fn mad(&self, b: &Float3<T>, c: &Float3<T>) -> (r: Float3<T>)
        requires
            scalar::mad_req(self.x, b.x, c.x),
            scalar::mad_req(self.y, b.y, c.y),
            scalar::mad_req(self.z, b.z, c.z),
        ensures
            scalar::mad_of(self.x, b.x, c.x, r.x),
            scalar::mad_of(self.y, b.y, c.y, r.y),
            scalar::mad_of(self.z, b.z, c.z, r.z),
    {
        Float3 {
            x: scalar::mad(self.x, b.x, c.x),
            y: scalar::mad(self.y, b.y, c.y),
            z: scalar::mad(self.z, b.z, c.z),
        }
    }
}

impl<T: Copy + core::ops::Add<Output = T> + core::ops::Sub<Output = T> + core::ops::Mul<Output = T>> Float3<T> {
    /// Computes the linear interpolation `self + t * (rhs - self)` per component;
    /// `t` is not clamped, so values outside `[0, 1]` extrapolate.
    pub fn lerp(&self, rhs: &Float3<T>, t: T) -> (r: Float3<T>)
        requires
            scalar::lerp_req(self.x, rhs.x, t),
            scalar::lerp_req(self.y, rhs.y, t),
            scalar::lerp_req(self.z, rhs.z, t),
        ensures
            scalar::lerp_of(self.x, rhs.x, t, r.x),
            scalar::lerp_of(self.y, rhs.y, t, r.y),
            scalar::lerp_of(self.z, rhs.z, t, r.z),
    {
        Float3 {
            x: scalar::lerp(self.x, rhs.x, t),
            y: scalar::lerp(self.y, rhs.y, t),
            z: scalar::lerp(self.z, rhs.z, t),
        }
    }
}
impl<T: Copy> Float3<T> {
    /// The vector whose every component is `v`.
    pub open spec fn splat(v: T) -> Float3<T> {
        Float3 { x: v, y: v, z: v }
    }

    /// The vector whose components are the tuple's elements, in field order.
    pub open spec fn from_tuple(v: (T, T, T)) -> Float3<T> {
        Float3 { x: v.0, y: v.1, z: v.2 }
    }

    /// Creates a vector from three components, in field order.
    pub fn new(x: T, y: T, z: T) -> (r: Self)
        ensures
            r == (Float3 { x, y, z }),
    {
        Float3 { x, y, z }
    }

    /// Returns the vector (x, x) of this vector's components.
    pub fn xx(&self) -> (r: Float2<T>)
        ensures
            r == (Float2 { x: self.x, y: self.x }),
    {
        Float2 { x: self.x, y: self.x }
    }

    /// Returns the vector (x, y) of this vector's components.
    pub fn xy(&self) -> (r: Float2<T>)
        ensures
            r == (Float2 { x: self.x, y: self.y }),
    {
        Float2 { x: self.x, y: self.y }
    }

    /// Returns the vector (x, z) of this vector's components.
    pub fn xz(&self) -> (r: Float2<T>)
        ensures
            r == (Float2 { x: self.x, y: self.z }),
    {
        Float2 { x: self.x, y: self.z }
    }

    /// Returns the vector (y, x) of this vector's components.
    pub fn yx(&self) -> (r: Float2<T>)
        ensures
            r == (Float2 { x: self.y, y: self.x }),
    {
        Float2 { x: self.y, y: self.x }
    }

    /// Returns the vector (y, y) of this vector's components.
    pub fn yy(&self) -> (r: Float2<T>)
        ensures
            r == (Float2 { x: self.y, y: self.y }),
    {
        Float2 { x: self.y, y: self.y }
    }

    /// Returns the vector (y, z) of this vector's components.
    pub fn yz(&self) -> (r: Float2<T>)
        ensures
            r == (Float2 { x: self.y, y: self.z }),
    {
        Float2 { x: self.y, y: self.z }
    }

    /// Returns the vector (z, x) of this vector's components.
    pub fn zx(&self) -> (r: Float2<T>)
        ensures
            r == (Float2 { x: self.z, y: self.x }),
    {
        Float2 { x: self.z, y: self.x }
    }

    /// Returns the vector (z, y) of this vector's components.
    pub fn zy(&self) -> (r: Float2<T>)
        ensures
            r == (Float2 { x: self.z, y: self.y }),
    {
        Float2 { x: self.z, y: self.y }
    }

    /// Returns the vector (z, z) of this vector's components.
    pub fn zz(&self) -> (r: Float2<T>)
        ensures
            r == (Float2 { x: self.z, y: self.z }),
    {
        Float2 { x: self.z, y: self.z }
    }

    /// Returns the vector (x, x, x) of this vector's components.
    pub fn xxx(&self) -> (r: Float3<T>)
        ensures
            r == (Float3 { x: self.x, y: self.x, z: self.x }),
    {
        Float3 { x: self.x, y: self.x, z: self.x }
    }

    /// Returns the vector (x, x, y) of this vector's components.
    pub fn xxy(&self) -> (r: Float3<T>)
        ensures
            r == (Float3 { x: self.x, y: self.x, z: self.y }),
    {
        Float3 { x: self.x, y: self.x, z: self.y }
    }

    /// Returns the vector (x, x, z) of this vector's components.
    pub fn xxz(&self) -> (r: Float3<T>)
        ensures
            r == (Float3 { x: self.x, y: self.x, z: self.z }),
    {
        Float3 { x: self.x, y: self.x, z: self.z }
    }

    /// Returns the vector (x, y, x) of this vector's components.
    pub fn xyx(&self) -> (r: Float3<T>)
        ensures
            r == (Float3 { x: self.x, y: self.y, z: self.x }),
    {
        Float3 { x: self.x, y: self.y, z: self.x }
    }

    /// Returns the vector (x, y, y) of this vector's components.
    pub fn xyy(&self) -> (r: Float3<T>)
        ensures
            r == (Float3 { x: self.x, y: self.y, z: self.y }),
    {
        Float3 { x: self.x, y: self.y, z: self.y }
    }

    /// Returns the vector (x, y, z) of this vector's components.
    pub fn xyz(&self) -> (r: Float3<T>)
        ensures
            r == (Float3 { x: self.x, y: self.y, z: self.z }),
    {
        Float3 { x: self.x, y: self.y, z: self.z }
    }

    /// Returns the vector (x, z, x) of this vector's components.
    pub fn xzx(&self) -> (r: Float3<T>)
        ensures
            r == (Float3 { x: self.x, y: self.z, z: self.x }),
    {
        Float3 { x: self.x, y: self.z, z: self.x }
    }

    /// Returns the vector (x, z, y) of this vector's components.
    pub fn xzy(&self) -> (r: Float3<T>)
        ensures
            r == (Float3 { x: self.x, y: self.z, z: self.y }),
    {
        Float3 { x: self.x, y: self.z, z: self.y }
    }

    /// Returns the vector (x, z, z) of this vector's components.
    pub fn xzz(&self) -> (r: Float3<T>)
        ensures
            r == (Float3 { x: self.x, y: self.z, z: self.z }),
    {
        Float3 { x: self.x, y: self.z, z: self.z }
    }

    /// Returns the vector (y, x, x) of this vector's components.
    pub fn yxx(&self) -> (r: Float3<T>)
        ensures
            r == (Float3 { x: self.y, y: self.x, z: self.x }),
    {
        Float3 { x: self.y, y: self.x, z: self.x }
    }

    /// Returns the vector (y, x, y) of this vector's components.
    pub fn yxy(&self) -> (r: Float3<T>)
        ensures
            r == (Float3 { x: self.y, y: self.x, z: self.y }),
    {
        Float3 { x: self.y, y: self.x, z: self.y }
    }

    /// Returns the vector (y, x, z) of this vector's components.
    pub fn yxz(&self) -> (r: Float3<T>)
        ensures
            r == (Float3 { x: self.y, y: self.x, z: self.z }),
    {
        Float3 { x: self.y, y: self.x, z: self.z }
    }

    /// Returns the vector (y, y, x) of this vector's components.
    pub fn yyx(&self) -> (r: Float3<T>)
        ensures
            r == (Float3 { x: self.y, y: self.y, z: self.x }),
    {
        Float3 { x: self.y, y: self.y, z: self.x }
    }

    /// Returns the vector (y, y, y) of this vector's components.
    pub fn yyy(&self) -> (r: Float3<T>)
        ensures
            r == (Float3 { x: self.y, y: self.y, z: self.y }),
    {
        Float3 { x: self.y, y: self.y, z: self.y }
    }

    /// Returns the vector (y, y, z) of this vector's components.
    pub fn yyz(&self) -> (r: Float3<T>)
        ensures
            r == (Float3 { x: self.y, y: self.y, z: self.z }),
    {
        Float3 { x: self.y, y: self.y, z: self.z }
    }

    /// Returns the vector (y, z, x) of this vector's components.
    pub fn yzx(&self) -> (r: Float3<T>)
        ensures
            r == (Float3 { x: self.y, y: self.z, z: self.x }),
    {
        Float3 { x: self.y, y: self.z, z: self.x }
    }

    /// Returns the vector (y, z, y) of this vector's components.
    pub fn yzy(&self) -> (r: Float3<T>)
        ensures
            r == (Float3 { x: self.y, y: self.z, z: self.y }),
    {
        Float3 { x: self.y, y: self.z, z: self.y }
    }

    /// Returns the vector (y, z, z) of this vector's components.
    pub fn yzz(&self) -> (r: Float3<T>)
        ensures
            r == (Float3 { x: self.y, y: self.z, z: self.z }),
    {
        Float3 { x: self.y, y: self.z, z: self.z }
    }

    /// Returns the vector (z, x, x) of this vector's components.
    pub fn zxx(&self) -> (r: Float3<T>)
        ensures
            r == (Float3 { x: self.z, y: self.x, z: self.x }),
    {
        Float3 { x: self.z, y: self.x, z: self.x }
    }

    /// Returns the vector (z, x, y) of this vector's components.
    pub fn zxy(&self) -> (r: Float3<T>)
        ensures
            r == (Float3 { x: self.z, y: self.x, z: self.y }),
    {
        Float3 { x: self.z, y: self.x, z: self.y }
    }

    /// Returns the vector (z, x, z) of this vector's components.
    pub fn zxz(&self) -> (r: Float3<T>)
        ensures
            r == (Float3 { x: self.z, y: self.x, z: self.z }),
    {
        Float3 { x: self.z, y: self.x, z: self.z }
    }

    /// Returns the vector (z, y, x) of this vector's components.
    pub fn zyx(&self) -> (r: Float3<T>)
        ensures
            r == (Float3 { x: self.z, y: self.y, z: self.x }),
    {
        Float3 { x: self.z, y: self.y, z: self.x }
    }

    /// Returns the vector (z, y, y) of this vector's components.
    pub fn zyy(&self) -> (r: Float3<T>)
        ensures
            r == (Float3 { x: self.z, y: self.y, z: self.y }),
    {
        Float3 { x: self.z, y: self.y, z: self.y }
    }

    /// Returns the vector (z, y, z) of this vector's components.
    pub fn zyz(&self) -> (r: Float3<T>)
        ensures
            r == (Float3 { x: self.z, y: self.y, z: self.z }),
    {
        Float3 { x: self.z, y: self.y, z: self.z }
    }

    /// Returns the vector (z, z, x) of this vector's components.
    pub fn zzx(&self) -> (r: Float3<T>)
        ensures
            r == (Float3 { x: self.z, y: self.z, z: self.x }),
    {
        Float3 { x: self.z, y: self.z, z: self.x }
    }

    /// Returns the vector (z, z, y) of this vector's components.
    pub fn zzy(&self) -> (r: Float3<T>)
        ensures
            r == (Float3 { x: self.z, y: self.z, z: self.y }),
    {
        Float3 { x: self.z, y: self.z, z: self.y }
    }

    /// Returns the vector (z, z, z) of this vector's components.
    pub fn zzz(&self) -> (r: Float3<T>)
        ensures
            r == (Float3 { x: self.z, y: self.z, z: self.z }),
    {
        Float3 { x: self.z, y: self.z, z: self.z }
    }

    /// Returns the vector (x, x, x, x) of this vector's components.
    pub fn xxxx(&self) -> (r: Float4<T>)
        ensures
            r == (Float4 { x: self.x, y: self.x, z: self.x, w: self.x }),
    {
        Float4 { x: self.x, y: self.x, z: self.x, w: self.x }
    }

    /// Returns the vector (x, x, x, y) of this vector's components.
    pub fn xxxy(&self) -> (r: Float4<T>)
        ensures
            r == (Float4 { x: self.x, y: self.x, z: self.x, w: self.y }),
    {
        Float4 { x: self.x, y: self.x, z: self.x, w: self.y }
    }

    /// Returns the vector (x, x, x, z) of this vector's components.
    pub fn xxxz(&self) -> (r: Float4<T>)
        ensures
            r == (Float4 { x: self.x, y: self.x, z: self.x, w: self.z }),
    {
        Float4 { x: self.x, y: self.x, z: self.x, w: self.z }
    }

    /// Returns the vector (x, x, y, x) of this vector's components.
    pub fn xxyx(&self) -> (r: Float4<T>)
        ensures
            r == (Float4 { x: self.x, y: self.x, z: self.y, w: self.x }),
    {
        Float4 { x: self.x, y: self.x, z: self.y, w: self.x }
    }

    /// Returns the vector (x, x, y, y) of this vector's components.
    pub fn xxyy(&self) -> (r: Float4<T>)
        ensures
            r == (Float4 { x: self.x, y: self.x, z: self.y, w: self.y }),
    {
        Float4 { x: self.x, y: self.x, z: self.y, w: self.y }
    }

    /// Returns the vector (x, x, y, z) of this vector's components.
    pub fn xxyz(&self) -> (r: Float4<T>)
        ensures
            r == (Float4 { x: self.x, y: self.x, z: self.y, w: self.z }),
    {
        Float4 { x: self.x, y: self.x, z: self.y, w: self.z }
    }

    /// Returns the vector (x, x, z, x) of this vector's components.
    pub fn xxzx(&self) -> (r: Float4<T>)
        ensures
            r == (Float4 { x: self.x, y: self.x, z: self.z, w: self.x }),
    {
        Float4 { x: self.x, y: self.x, z: self.z, w: self.x }
    }

    /// Returns the vector (x, x, z, y) of this vector's components.
    pub fn xxzy(&self) -> (r: Float4<T>)
        ensures
            r == (Float4 { x: self.x, y: self.x, z: self.z, w: self.y }),
    {
        Float4 { x: self.x, y: self.x, z: self.z, w: self.y }
    }

    /// Returns the vector (x, x, z, z) of this vector's components.
    pub fn xxzz(&self) -> (r: Float4<T>)
        ensures
            r == (Float4 { x: self.x, y: self.x, z: self.z, w: self.z }),
    {
        Float4 { x: self.x, y: self.x, z: self.z, w: self.z }
    }

    /// Returns the vector (x, y, x, x) of this vector's components.
    pub fn xyxx(&self) -> (r: Float4<T>)
        ensures
            r == (Float4 { x: self.x, y: self.y, z: self.x, w: self.x }),
    {
        Float4 { x: self.x, y: self.y, z: self.x, w: self.x }
    }

    /// Returns the vector (x, y, x, y) of this vector's components.
    pub fn xyxy(&self) -> (r: Float4<T>)
        ensures
            r == (Float4 { x: self.x, y: self.y, z: self.x, w: self.y }),
    {
        Float4 { x: self.x, y: self.y, z: self.x, w: self.y }
    }

    /// Returns the vector (x, y, x, z) of this vector's components.
    pub fn xyxz(&self) -> (r: Float4<T>)
        ensures
            r == (Float4 { x: self.x, y: self.y, z: self.x, w: self.z }),
    {
        Float4 { x: self.x, y: self.y, z: self.x, w: self.z }
    }

    /// Returns the vector (x, y, y, x) of this vector's components.
    pub fn xyyx(&self) -> (r: Float4<T>)
        ensures
            r == (Float4 { x: self.x, y: self.y, z: self.y, w: self.x }),
    {
        Float4 { x: self.x, y: self.y, z: self.y, w: self.x }
    }

    /// Returns the vector (x, y, y, y) of this vector's components.
    pub fn xyyy(&self) -> (r: Float4<T>)
        ensures
            r == (Float4 { x: self.x, y: self.y, z: self.y, w: self.y }),
    {
        Float4 { x: self.x, y: self.y, z: self.y, w: self.y }
    }

    /// Returns the vector (x, y, y, z) of this vector's components.
    pub fn xyyz(&self) -> (r: Float4<T>)
        ensures
            r == (Float4 { x: self.x, y: self.y, z: self.y, w: self.z }),
    {
        Float4 { x: self.x, y: self.y, z: self.y, w: self.z }
    }

    /// Returns the vector (x, y, z, x) of this vector's components.
    pub fn xyzx(&self) -> (r: Float4<T>)
        ensures
            r == (Float4 { x: self.x, y: self.y, z: self.z, w: self.x }),
    {
        Float4 { x: self.x, y: self.y, z: self.z, w: self.x }
    }

    /// Returns the vector (x, y, z, y) of this vector's components.
    pub fn xyzy(&self) -> (r: Float4<T>)
        ensures
            r == (Float4 { x: self.x, y: self.y, z: self.z, w: self.y }),
    {
        Float4 { x: self.x, y: self.y, z: self.z, w: self.y }
    }

    /// Returns the vector (x, y, z, z) of this vector's components.
    pub fn xyzz(&self) -> (r: Float4<T>)
        ensures
            r == (Float4 { x: self.x, y: self.y, z: self.z, w: self.z }),
    {
        Float4 { x: self.x, y: self.y, z: self.z, w: self.z }
    }

    /// Returns the vector (x, z, x, x) of this vector's components.
    pub fn xzxx(&self) -> (r: Float4<T>)
        ensures
            r == (Float4 { x: self.x, y: self.z, z: self.x, w: self.x }),
    {
        Float4 { x: self.x, y: self.z, z: self.x, w: self.x }
    }

    /// Returns the vector (x, z, x, y) of this vector's components.
    pub fn xzxy(&self) -> (r: Float4<T>)
        ensures
            r == (Float4 { x: self.x, y: self.z, z: self.x, w: self.y }),
    {
        Float4 { x: self.x, y: self.z, z: self.x, w: self.y }
    }

    /// Returns the vector (x, z, x, z) of this vector's components.
    pub fn xzxz(&self) -> (r: Float4<T>)
        ensures
            r == (Float4 { x: self.x, y: self.z, z: self.x, w: self.z }),
    {
        Float4 { x: self.x, y: self.z, z: self.x, w: self.z }
    }

    /// Returns the vector (x, z, y, x) of this vector's components.
    pub fn xzyx(&self) -> (r: Float4<T>)
        ensures
            r == (Float4 { x: self.x, y: self.z, z: self.y, w: self.x }),
    {
        Float4 { x: self.x, y: self.z, z: self.y, w: self.x }
    }

    /// Returns the vector (x, z, y, y) of this vector's components.
    pub fn xzyy(&self) -> (r: Float4<T>)
        ensures
            r == (Float4 { x: self.x, y: self.z, z: self.y, w: self.y }),
    {
        Float4 { x: self.x, y: self.z, z: self.y, w: self.y }
    }

    /// Returns the vector (x, z, y, z) of this vector's components.
    pub fn xzyz(&self) -> (r: Float4<T>)
        ensures
            r == (Float4 { x: self.x, y: self.z, z: self.y, w: self.z }),
    {
        Float4 { x: self.x, y: self.z, z: self.y, w: self.z }
    }

    /// Returns the vector (x, z, z, x) of this vector's components.
    pub fn xzzx(&self) -> (r: Float4<T>)
        ensures
            r == (Float4 { x: self.x, y: self.z, z: self.z, w: self.x }),
    {
        Float4 { x: self.x, y: self.z, z: self.z, w: self.x }
    }

    /// Returns the vector (x, z, z, y) of this vector's components.
    pub fn xzzy(&self) -> (r: Float4<T>)
        ensures
            r == (Float4 { x: self.x, y: self.z, z: self.z, w: self.y }),
    {
        Float4 { x: self.x, y: self.z, z: self.z, w: self.y }
    }

    /// Returns the vector (x, z, z, z) of this vector's components.
    pub fn xzzz(&self) -> (r: Float4<T>)
        ensures
            r == (Float4 { x: self.x, y: self.z, z: self.z, w: self.z }),
    {
        Float4 { x: self.x, y: self.z, z: self.z, w: self.z }
    }

    /// Returns the vector (y, x, x, x) of this vector's components.
    pub fn yxxx(&self) -> (r: Float4<T>)
        ensures
            r == (Float4 { x: self.y, y: self.x, z: self.x, w: self.x }),
    {
        Float4 { x: self.y, y: self.x, z: self.x, w: self.x }
    }

    /// Returns the vector (y, x, x, y) of this vector's components.
    pub fn yxxy(&self) -> (r: Float4<T>)
        ensures
            r == (Float4 { x: self.y, y: self.x, z: self.x, w: self.y }),
    {
        Float4 { x: self.y, y: self.x, z: self.x, w: self.y }
    }

    /// Returns the vector (y, x, x, z) of this vector's components.
    pub fn yxxz(&self) -> (r: Float4<T>)
        ensures
            r == (Float4 { x: self.y, y: self.x, z: self.x, w: self.z }),
    {
        Float4 { x: self.y, y: self.x, z: self.x, w: self.z }
    }

    /// Returns the vector (y, x, y, x) of this vector's components.
    pub fn yxyx(&self) -> (r: Float4<T>)
        ensures
            r == (Float4 { x: self.y, y: self.x, z: self.y, w: self.x }),
    {
        Float4 { x: self.y, y: self.x, z: self.y, w: self.x }
    }

    /// Returns the vector (y, x, y, y) of this vector's components.
    pub fn yxyy(&self) -> (r: Float4<T>)
        ensures
            r == (Float4 { x: self.y, y: self.x, z: self.y, w: self.y }),
    {
        Float4 { x: self.y, y: self.x, z: self.y, w: self.y }
    }

    /// Returns the vector (y, x, y, z) of this vector's components.
    pub fn yxyz(&self) -> (r: Float4<T>)
        ensures
            r == (Float4 { x: self.y, y: self.x, z: self.y, w: self.z }),
    {
        Float4 { x: self.y, y: self.x, z: self.y, w: self.z }
    }

    /// Returns the vector (y, x, z, x) of this vector's components.
    pub fn yxzx(&self) -> (r: Float4<T>)
        ensures
            r == (Float4 { x: self.y, y: self.x, z: self.z, w: self.x }),
    {
        Float4 { x: self.y, y: self.x, z: self.z, w: self.x }
    }

    /// Returns the vector (y, x, z, y) of this vector's components.
    pub fn yxzy(&self) -> (r: Float4<T>)
        ensures
            r == (Float4 { x: self.y, y: self.x, z: self.z, w: self.y }),
    {
        Float4 { x: self.y, y: self.x, z: self.z, w: self.y }
    }

    /// Returns the vector (y, x, z, z) of this vector's components.
    pub fn yxzz(&self) -> (r: Float4<T>)
        ensures
            r == (Float4 { x: self.y, y: self.x, z: self.z, w: self.z }),
    {
        Float4 { x: self.y, y: self.x, z: self.z, w: self.z }
    }

    /// Returns the vector (y, y, x, x) of this vector's components.
    pub fn yyxx(&self) -> (r: Float4<T>)
        ensures
            r == (Float4 { x: self.y, y: self.y, z: self.x, w: self.x }),
    {
        Float4 { x: self.y, y: self.y, z: self.x, w: self.x }
    }

    /// Returns the vector (y, y, x, y) of this vector's components.
    pub fn yyxy(&self) -> (r: Float4<T>)
        ensures
            r == (Float4 { x: self.y, y: self.y, z: self.x, w: self.y }),
    {
        Float4 { x: self.y, y: self.y, z: self.x, w: self.y }
    }

    /// Returns the vector (y, y, x, z) of this vector's components.
    pub fn yyxz(&self) -> (r: Float4<T>)
        ensures
            r == (Float4 { x: self.y, y: self.y, z: self.x, w: self.z }),
    {
        Float4 { x: self.y, y: self.y, z: self.x, w: self.z }
    }

    /// Returns the vector (y, y, y, x) of this vector's components.
    pub fn yyyx(&self) -> (r: Float4<T>)
        ensures
            r == (Float4 { x: self.y, y: self.y, z: self.y, w: self.x }),
    {
        Float4 { x: self.y, y: self.y, z: self.y, w: self.x }
    }

    /// Returns the vector (y, y, y, y) of this vector's components.
    pub fn yyyy(&self) -> (r: Float4<T>)
        ensures
            r == (Float4 { x: self.y, y: self.y, z: self.y, w: self.y }),
    {
        Float4 { x: self.y, y: self.y, z: self.y, w: self.y }
    }

    /// Returns the vector (y, y, y, z) of this vector's components.
    pub fn yyyz(&self) -> (r: Float4<T>)
        ensures
            r == (Float4 { x: self.y, y: self.y, z: self.y, w: self.z }),
    {
        Float4 { x: self.y, y: self.y, z: self.y, w: self.z }
    }

    /// Returns the vector (y, y, z, x) of this vector's components.
    pub fn yyzx(&self) -> (r: Float4<T>)
        ensures
            r == (Float4 { x: self.y, y: self.y, z: self.z, w: self.x }),
    {
        Float4 { x: self.y, y: self.y, z: self.z, w: self.x }
    }

    /// Returns the vector (y, y, z, y) of this vector's components.
    pub fn yyzy(&self) -> (r: Float4<T>)
        ensures
            r == (Float4 { x: self.y, y: self.y, z: self.z, w: self.y }),
    {
        Float4 { x: self.y, y: self.y, z: self.z, w: self.y }
    }

    /// Returns the vector (y, y, z, z) of this vector's components.
    pub fn yyzz(&self) -> (r: Float4<T>)
        ensures
            r == (Float4 { x: self.y, y: self.y, z: self.z, w: self.z }),
    {
        Float4 { x: self.y, y: self.y, z: self.z, w: self.z }
    }

    /// Returns the vector (y, z, x, x) of this vector's components.
    pub fn yzxx(&self) -> (r: Float4<T>)
        ensures
            r == (Float4 { x: self.y, y: self.z, z: self.x, w: self.x }),
    {
        Float4 { x: self.y, y: self.z, z: self.x, w: self.x }
    }

    /// Returns the vector (y, z, x, y) of this vector's components.
    pub fn yzxy(&self) -> (r: Float4<T>)
        ensures
            r == (Float4 { x: self.y, y: self.z, z: self.x, w: self.y }),
    {
        Float4 { x: self.y, y: self.z, z: self.x, w: self.y }
    }

    /// Returns the vector (y, z, x, z) of this vector's components.
    pub fn yzxz(&self) -> (r: Float4<T>)
        ensures
            r == (Float4 { x: self.y, y: self.z, z: self.x, w: self.z }),
    {
        Float4 { x: self.y, y: self.z, z: self.x, w: self.z }
    }

    /// Returns the vector (y, z, y, x) of this vector's components.
    pub fn yzyx(&self) -> (r: Float4<T>)
        ensures
            r == (Float4 { x: self.y, y: self.z, z: self.y, w: self.x }),
    {
        Float4 { x: self.y, y: self.z, z: self.y, w: self.x }
    }

    /// Returns the vector (y, z, y, y) of this vector's components.
    pub fn yzyy(&self) -> (r: Float4<T>)
        ensures
            r == (Float4 { x: self.y, y: self.z, z: self.y, w: self.y }),
    {
        Float4 { x: self.y, y: self.z, z: self.y, w: self.y }
    }

    /// Returns the vector (y, z, y, z) of this vector's components.
    pub fn yzyz(&self) -> (r: Float4<T>)
        ensures
            r == (Float4 { x: self.y, y: self.z, z: self.y, w: self.z }),
    {
        Float4 { x: self.y, y: self.z, z: self.y, w: self.z }
    }

    /// Returns the vector (y, z, z, x) of this vector's components.
    pub fn yzzx(&self) -> (r: Float4<T>)
        ensures
            r == (Float4 { x: self.y, y: self.z, z: self.z, w: self.x }),
    {
        Float4 { x: self.y, y: self.z, z: self.z, w: self.x }
    }

    /// Returns the vector (y, z, z, y) of this vector's components.
    pub fn yzzy(&self) -> (r: Float4<T>)
        ensures
            r == (Float4 { x: self.y, y: self.z, z: self.z, w: self.y }),
    {
        Float4 { x: self.y, y: self.z, z: self.z, w: self.y }
    }

    /// Returns the vector (y, z, z, z) of this vector's components.
    pub fn yzzz(&self) -> (r: Float4<T>)
        ensures
            r == (Float4 { x: self.y, y: self.z, z: self.z, w: self.z }),
    {
        Float4 { x: self.y, y: self.z, z: self.z, w: self.z }
    }

    /// Returns the vector (z, x, x, x) of this vector's components.
    pub fn zxxx(&self) -> (r: Float4<T>)
        ensures
            r == (Float4 { x: self.z, y: self.x, z: self.x, w: self.x }),
    {
        Float4 { x: self.z, y: self.x, z: self.x, w: self.x }
    }

    /// Returns the vector (z, x, x, y) of this vector's components.
    pub fn zxxy(&self) -> (r: Float4<T>)
        ensures
            r == (Float4 { x: self.z, y: self.x, z: self.x, w: self.y }),
    {
        Float4 { x: self.z, y: self.x, z: self.x, w: self.y }
    }

    /// Returns the vector (z, x, x, z) of this vector's components.
    pub fn zxxz(&self) -> (r: Float4<T>)
        ensures
            r == (Float4 { x: self.z, y: self.x, z: self.x, w: self.z }),
    {
        Float4 { x: self.z, y: self.x, z: self.x, w: self.z }
    }

    /// Returns the vector (z, x, y, x) of this vector's components.
    pub fn zxyx(&self) -> (r: Float4<T>)
        ensures
            r == (Float4 { x: self.z, y: self.x, z: self.y, w: self.x }),
    {
        Float4 { x: self.z, y: self.x, z: self.y, w: self.x }
    }

    /// Returns the vector (z, x, y, y) of this vector's components.
    pub fn zxyy(&self) -> (r: Float4<T>)
        ensures
            r == (Float4 { x: self.z, y: self.x, z: self.y, w: self.y }),
    {
        Float4 { x: self.z, y: self.x, z: self.y, w: self.y }
    }

    /// Returns the vector (z, x, y, z) of this vector's components.
    pub fn zxyz(&self) -> (r: Float4<T>)
        ensures
            r == (Float4 { x: self.z, y: self.x, z: self.y, w: self.z }),
    {
        Float4 { x: self.z, y: self.x, z: self.y, w: self.z }
    }

    /// Returns the vector (z, x, z, x) of this vector's components.
    pub fn zxzx(&self) -> (r: Float4<T>)
        ensures
            r == (Float4 { x: self.z, y: self.x, z: self.z, w: self.x }),
    {
        Float4 { x: self.z, y: self.x, z: self.z, w: self.x }
    }

    /// Returns the vector (z, x, z, y) of this vector's components.
    pub fn zxzy(&self) -> (r: Float4<T>)
        ensures
            r == (Float4 { x: self.z, y: self.x, z: self.z, w: self.y }),
    {
        Float4 { x: self.z, y: self.x, z: self.z, w: self.y }
    }

    /// Returns the vector (z, x, z, z) of this vector's components.
    pub fn zxzz(&self) -> (r: Float4<T>)
        ensures
            r == (Float4 { x: self.z, y: self.x, z: self.z, w: self.z }),
    {
        Float4 { x: self.z, y: self.x, z: self.z, w: self.z }
    }

    /// Returns the vector (z, y, x, x) of this vector's components.
    pub fn zyxx(&self) -> (r: Float4<T>)
        ensures
            r == (Float4 { x: self.z, y: self.y, z: self.x, w: self.x }),
    {
        Float4 { x: self.z, y: self.y, z: self.x, w: self.x }
    }

    /// Returns the vector (z, y, x, y) of this vector's components.
    pub fn zyxy(&self) -> (r: Float4<T>)
        ensures
            r == (Float4 { x: self.z, y: self.y, z: self.x, w: self.y }),
    {
        Float4 { x: self.z, y: self.y, z: self.x, w: self.y }
    }

    /// Returns the vector (z, y, x, z) of this vector's components.
    pub fn zyxz(&self) -> (r: Float4<T>)
        ensures
            r == (Float4 { x: self.z, y: self.y, z: self.x, w: self.z }),
    {
        Float4 { x: self.z, y: self.y, z: self.x, w: self.z }
    }

    /// Returns the vector (z, y, y, x) of this vector's components.
    pub fn zyyx(&self) -> (r: Float4<T>)
        ensures
            r == (Float4 { x: self.z, y: self.y, z: self.y, w: self.x }),
    {
        Float4 { x: self.z, y: self.y, z: self.y, w: self.x }
    }

    /// Returns the vector (z, y, y, y) of this vector's components.
    pub fn zyyy(&self) -> (r: Float4<T>)
        ensures
            r == (Float4 { x: self.z, y: self.y, z: self.y, w: self.y }),
    {
        Float4 { x: self.z, y: self.y, z: self.y, w: self.y }
    }

    /// Returns the vector (z, y, y, z) of this vector's components.
    pub fn zyyz(&self) -> (r: Float4<T>)
        ensures
            r == (Float4 { x: self.z, y: self.y, z: self.y, w: self.z }),
    {
        Float4 { x: self.z, y: self.y, z: self.y, w: self.z }
    }

    /// Returns the vector (z, y, z, x) of this vector's components.
    pub fn zyzx(&self) -> (r: Float4<T>)
        ensures
            r == (Float4 { x: self.z, y: self.y, z: self.z, w: self.x }),
    {
        Float4 { x: self.z, y: self.y, z: self.z, w: self.x }
    }

    /// Returns the vector (z, y, z, y) of this vector's components.
    pub fn zyzy(&self) -> (r: Float4<T>)
        ensures
            r == (Float4 { x: self.z, y: self.y, z: self.z, w: self.y }),
    {
        Float4 { x: self.z, y: self.y, z: self.z, w: self.y }
    }

    /// Returns the vector (z, y, z, z) of this vector's components.
    pub fn zyzz(&self) -> (r: Float4<T>)
        ensures
            r == (Float4 { x: self.z, y: self.y, z: self.z, w: self.z }),
    {
        Float4 { x: self.z, y: self.y, z: self.z, w: self.z }
    }

    /// Returns the vector (z, z, x, x) of this vector's components.
    pub fn zzxx(&self) -> (r: Float4<T>)
        ensures
            r == (Float4 { x: self.z, y: self.z, z: self.x, w: self.x }),
    {
        Float4 { x: self.z, y: self.z, z: self.x, w: self.x }
    }

    /// Returns the vector (z, z, x, y) of this vector's components.
    pub fn zzxy(&self) -> (r: Float4<T>)
        ensures
            r == (Float4 { x: self.z, y: self.z, z: self.x, w: self.y }),
    {
        Float4 { x: self.z, y: self.z, z: self.x, w: self.y }
    }

    /// Returns the vector (z, z, x, z) of this vector's components.
    pub fn zzxz(&self) -> (r: Float4<T>)
        ensures
            r == (Float4 { x: self.z, y: self.z, z: self.x, w: self.z }),
    {
        Float4 { x: self.z, y: self.z, z: self.x, w: self.z }
    }

    /// Returns the vector (z, z, y, x) of this vector's components.
    pub fn zzyx(&self) -> (r: Float4<T>)
        ensures
            r == (Float4 { x: self.z, y: self.z, z: self.y, w: self.x }),
    {
        Float4 { x: self.z, y: self.z, z: self.y, w: self.x }
    }

    /// Returns the vector (z, z, y, y) of this vector's components.
    pub fn zzyy(&self) -> (r: Float4<T>)
        ensures
            r == (Float4 { x: self.z, y: self.z, z: self.y, w: self.y }),
    {
        Float4 { x: self.z, y: self.z, z: self.y, w: self.y }
    }

    /// Returns the vector (z, z, y, z) of this vector's components.
    pub fn zzyz(&self) -> (r: Float4<T>)
        ensures
            r == (Float4 { x: self.z, y: self.z, z: self.y, w: self.z }),
    {
        Float4 { x: self.z, y: self.z, z: self.y, w: self.z }
    }

    /// Returns the vector (z, z, z, x) of this vector's components.
    pub fn zzzx(&self) -> (r: Float4<T>)
        ensures
            r == (Float4 { x: self.z, y: self.z, z: self.z, w: self.x }),
    {
        Float4 { x: self.z, y: self.z, z: self.z, w: self.x }
    }

    /// Returns the vector (z, z, z, y) of this vector's components.
    pub fn zzzy(&self) -> (r: Float4<T>)
        ensures
            r == (Float4 { x: self.z, y: self.z, z: self.z, w: self.y }),
    {
        Float4 { x: self.z, y: self.z, z: self.z, w: self.y }
    }

    /// Returns the vector (z, z, z, z) of this vector's components.
    pub fn zzzz(&self) -> (r: Float4<T>)
        ensures
            r == (Float4 { x: self.z, y: self.z, z: self.z, w: self.z }),
    {
        Float4 { x: self.z, y: self.z, z: self.z, w: self.z }
    }
}

} // verus!
