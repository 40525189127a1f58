use vstd::prelude::*;
use vstd::std_specs::cmp::PartialEqSpec;
use vstd::std_specs::ops::AddSpec;
use vstd::std_specs::ops::SubSpec;
use vstd::std_specs::ops::MulSpec;
use vstd::std_specs::ops::DivSpec;
use vstd::std_specs::ops::NegSpec;

use crate::float2::Float2;
use crate::float3::Float3;
use crate::scalar;

verus! {

/// Vector of four components of a copyable scalar type `T`.
///
/// Every value of the components is a valid vector. The arithmetic operators
/// work component by component through the scalar type's own operators, so each
/// component of a result is exactly what that scalar operation gives.
#[derive(Clone, Copy, Debug)]
pub struct Float4<T> {
    /// The x-component of the vector.
    pub x: T,
    /// The y-component of the vector.
    pub y: T,
    /// The z-component of the vector.
    pub z: T,
    /// The w-component of the vector.
    pub w: T,
}

impl<T: Copy + core::ops::Add<Output = T>> core::ops::Add<Float4<T>> for Float4<T> {
    type Output = Float4<T>;

    /// Component-wise sum of `self` and the matching components of `rhs`.
    fn add(self, rhs: Float4<T>) -> (r: Float4<T>)
        ensures
            call_ensures(T::add, (self.x, rhs.x), r.x),
            call_ensures(T::add, (self.y, rhs.y), r.y),
            call_ensures(T::add, (self.z, rhs.z), r.z),
            call_ensures(T::add, (self.w, rhs.w), r.w),
    {
        Float4 { x: self.x + rhs.x, y: self.y + rhs.y, z: self.z + rhs.z, w: self.w + rhs.w }
    }
}

impl<T: Copy + core::ops::Add<Output = T>> vstd::std_specs::ops::AddSpecImpl<Float4<T>> for Float4<T> {
    open spec fn obeys_add_spec() -> bool {
        T::obeys_add_spec()
    }

    open spec fn add_req(self, rhs: Float4<T>) -> bool {
        self.x.add_req(rhs.x)
            && self.y.add_req(rhs.y)
            && self.z.add_req(rhs.z)
            && self.w.add_req(rhs.w)
    }

    open spec fn add_spec(self, rhs: Float4<T>) -> Float4<T> {
        Float4 {
            x: self.x.add_spec(rhs.x),
            y: self.y.add_spec(rhs.y),
            z: self.z.add_spec(rhs.z),
            w: self.w.add_spec(rhs.w),
        }
    }
}

impl<T: Copy + core::ops::Add<Output = T>> core::ops::AddAssign<Float4<T>> for Float4<T> {
    /// Replaces each component with its sum with the matching components of `rhs`.
    fn add_assign(&mut self, rhs: Float4<T>)
        requires
            old(self).x.add_req(rhs.x),
            old(self).y.add_req(rhs.y),
            old(self).z.add_req(rhs.z),
            old(self).w.add_req(rhs.w),
        ensures
            call_ensures(T::add, (old(self).x, rhs.x), final(self).x),
            call_ensures(T::add, (old(self).y, rhs.y), final(self).y),
            call_ensures(T::add, (old(self).z, rhs.z), final(self).z),
            call_ensures(T::add, (old(self).w, rhs.w), final(self).w),
    {
        self.x = self.x + rhs.x;
        self.y = self.y + rhs.y;
        self.z = self.z + rhs.z;
        self.w = self.w + rhs.w;
    }
}

impl<T: Copy + core::ops::Add<Output = T>> core::ops::Add<T> for Float4<T> {
    type Output = Float4<T>;

    /// Component-wise sum of `self` and the scalar `rhs`.
    fn add(self, rhs: T) -> (r: Float4<T>)
        ensures
            call_ensures(T::add, (self.x, rhs), r.x),
            call_ensures(T::add, (self.y, rhs), r.y),
            call_ensures(T::add, (self.z, rhs), r.z),
            call_ensures(T::add, (self.w, rhs), r.w),
    {
        Float4 { x: self.x + rhs, y: self.y + rhs, z: self.z + rhs, w: self.w + rhs }
    }
}

impl<T: Copy + core::ops::Add<Output = T>> vstd::std_specs::ops::AddSpecImpl<T> for Float4<T> {
    open spec fn obeys_add_spec() -> bool {
        T::obeys_add_spec()
    }

    open spec fn add_req(self, rhs: T) -> bool {
        self.x.add_req(rhs) && self.y.add_req(rhs) && self.z.add_req(rhs) && self.w.add_req(rhs)
    }

    open spec fn add_spec(self, rhs: T) -> Float4<T> {
        Float4 {
            x: self.x.add_spec(rhs),
            y: self.y.add_spec(rhs),
            z: self.z.add_spec(rhs),
            w: self.w.add_spec(rhs),
        }
    }
}

impl<T: Copy + core::ops::Add<Output = T>> core::ops::AddAssign<T> for Float4<T> {
    /// Replaces each component with its sum with the scalar `rhs`.
    fn add_assign(&mut self, rhs: T)
        requires
            old(self).x.add_req(rhs),
            old(self).y.add_req(rhs),
            old(self).z.add_req(rhs),
            old(self).w.add_req(rhs),
        ensures
            call_ensures(T::add, (old(self).x, rhs), final(self).x),
            call_ensures(T::add, (old(self).y, rhs), final(self).y),
            call_ensures(T::add, (old(self).z, rhs), final(self).z),
            call_ensures(T::add, (old(self).w, rhs), final(self).w),
    {
        self.x = self.x + rhs;
        self.y = self.y + rhs;
        self.z = self.z + rhs;
        self.w = self.w + rhs;
    }
}

impl<T: Copy + core::ops::Sub<Output = T>> core::ops::Sub<Float4<T>> for Float4<T> {
    type Output = Float4<T>;

    /// Component-wise difference of `self` and the matching components of `rhs`.
    fn sub(self, rhs: Float4<T>) -> (r: Float4<T>)
        ensures
            call_ensures(T::sub, (self.x, rhs.x), r.x),
            call_ensures(T::sub, (self.y, rhs.y), r.y),
            call_ensures(T::sub, (self.z, rhs.z), r.z),
            call_ensures(T::sub, (self.w, rhs.w), r.w),
    {
        Float4 { x: self.x - rhs.x, y: self.y - rhs.y, z: self.z - rhs.z, w: self.w - rhs.w }
    }
}

impl<T: Copy + core::ops::Sub<Output = T>> vstd::std_specs::ops::SubSpecImpl<Float4<T>> for Float4<T> {
    open spec fn obeys_sub_spec() -> bool {
        T::obeys_sub_spec()
    }

    open spec fn sub_req(self, rhs: Float4<T>) -> bool {
        self.x.sub_req(rhs.x)
            && self.y.sub_req(rhs.y)
            && self.z.sub_req(rhs.z)
            && self.w.sub_req(rhs.w)
    }

    open spec fn sub_spec(self, rhs: Float4<T>) -> Float4<T> {
        Float4 {
            x: self.x.sub_spec(rhs.x),
            y: self.y.sub_spec(rhs.y),
            z: self.z.sub_spec(rhs.z),
            w: self.w.sub_spec(rhs.w),
        }
    }
}

impl<T: Copy + core::ops::Sub<Output = T>> core::ops::SubAssign<Float4<T>> for Float4<T> {
    /// Replaces each component with its difference with the matching components of `rhs`.
    fn sub_assign(&mut self, rhs: Float4<T>)
        requires
            old(self).x.sub_req(rhs.x),
            old(self).y.sub_req(rhs.y),
            old(self).z.sub_req(rhs.z),
            old(self).w.sub_req(rhs.w),
        ensures
            call_ensures(T::sub, (old(self).x, rhs.x), final(self).x),
            call_ensures(T::sub, (old(self).y, rhs.y), final(self).y),
            call_ensures(T::sub, (old(self).z, rhs.z), final(self).z),
            call_ensures(T::sub, (old(self).w, rhs.w), final(self).w),
    {
        self.x = self.x - rhs.x;
        self.y = self.y - rhs.y;
        self.z = self.z - rhs.z;
        self.w = self.w - rhs.w;
    }
}

impl<T: Copy + core::ops::Sub<Output = T>> core::ops::Sub<T> for Float4<T> {
    type Output = Float4<T>;

    /// Component-wise difference of `self` and the scalar `rhs`.
    fn sub(self, rhs: T) -> (r: Float4<T>)
        ensures
            call_ensures(T::sub, (self.x, rhs), r.x),
            call_ensures(T::sub, (self.y, rhs), r.y),
            call_ensures(T::sub, (self.z, rhs), r.z),
            call_ensures(T::sub, (self.w, rhs), r.w),
    {
        Float4 { x: self.x - rhs, y: self.y - rhs, z: self.z - rhs, w: self.w - rhs }
    }
}

impl<T: Copy + core::ops::Sub<Output = T>> vstd::std_specs::ops::SubSpecImpl<T> for Float4<T> {
    open spec fn obeys_sub_spec() -> bool {
        T::obeys_sub_spec()
    }

    open spec fn sub_req(self, rhs: T) -> bool {
        self.x.sub_req(rhs) && self.y.sub_req(rhs) && self.z.sub_req(rhs) && self.w.sub_req(rhs)
    }

    open spec fn sub_spec(self, rhs: T) -> Float4<T> {
        Float4 {
            x: self.x.sub_spec(rhs),
            y: self.y.sub_spec(rhs),
            z: self.z.sub_spec(rhs),
            w: self.w.sub_spec(rhs),
        }
    }
}

impl<T: Copy + core::ops::Sub<Output = T>> core::ops::SubAssign<T> for Float4<T> {
    /// Replaces each component with its difference with the scalar `rhs`.
    fn sub_assign(&mut self, rhs: T)
        requires
            old(self).x.sub_req(rhs),
            old(self).y.sub_req(rhs),
            old(self).z.sub_req(rhs),
            old(self).w.sub_req(rhs),
        ensures
            call_ensures(T::sub, (old(self).x, rhs), final(self).x),
            call_ensures(T::sub, (old(self).y, rhs), final(self).y),
            call_ensures(T::sub, (old(self).z, rhs), final(self).z),
            call_ensures(T::sub, (old(self).w, rhs), final(self).w),
    {
        self.x = self.x - rhs;
        self.y = self.y - rhs;
        self.z = self.z - rhs;
        self.w = self.w - rhs;
    }
}

impl<T: Copy + core::ops::Mul<Output = T>> core::ops::Mul<Float4<T>> for Float4<T> {
    type Output = Float4<T>;

    /// Component-wise product of `self` and the matching components of `rhs`.
    fn mul(self, rhs: Float4<T>) -> (r: Float4<T>)
        ensures
            call_ensures(T::mul, (self.x, rhs.x), r.x),
            call_ensures(T::mul, (self.y, rhs.y), r.y),
            call_ensures(T::mul, (self.z, rhs.z), r.z),
            call_ensures(T::mul, (self.w, rhs.w), r.w),
    {
        Float4 { x: self.x * rhs.x, y: self.y * rhs.y, z: self.z * rhs.z, w: self.w * rhs.w }
    }
}

impl<T: Copy + core::ops::Mul<Output = T>> vstd::std_specs::ops::MulSpecImpl<Float4<T>> for Float4<T> {
    open spec fn obeys_mul_spec() -> bool {
        T::obeys_mul_spec()
    }

    open spec fn mul_req(self, rhs: Float4<T>) -> bool {
        self.x.mul_req(rhs.x)
            && self.y.mul_req(rhs.y)
            && self.z.mul_req(rhs.z)
            && self.w.mul_req(rhs.w)
    }

    open spec fn mul_spec(self, rhs: Float4<T>) -> Float4<T> {
        Float4 {
            x: self.x.mul_spec(rhs.x),
            y: self.y.mul_spec(rhs.y),
            z: self.z.mul_spec(rhs.z),
            w: self.w.mul_spec(rhs.w),
        }
    }
}

impl<T: Copy + core::ops::Mul<Output = T>> core::ops::MulAssign<Float4<T>> for Float4<T> {
    /// Replaces each component with its product with the matching components of `rhs`.
    fn mul_assign(&mut self, rhs: Float4<T>)
        requires
            old(self).x.mul_req(rhs.x),
            old(self).y.mul_req(rhs.y),
            old(self).z.mul_req(rhs.z),
            old(self).w.mul_req(rhs.w),
        ensures
            call_ensures(T::mul, (old(self).x, rhs.x), final(self).x),
            call_ensures(T::mul, (old(self).y, rhs.y), final(self).y),
            call_ensures(T::mul, (old(self).z, rhs.z), final(self).z),
            call_ensures(T::mul, (old(self).w, rhs.w), final(self).w),
    {
        self.x = self.x * rhs.x;
        self.y = self.y * rhs.y;
        self.z = self.z * rhs.z;
        self.w = self.w * rhs.w;
    }
}

impl<T: Copy + core::ops::Mul<Output = T>> core::ops::Mul<T> for Float4<T> {
    type Output = Float4<T>;

    /// Component-wise product of `self` and the scalar `rhs`.
    fn mul(self, rhs: T) -> (r: Float4<T>)
        ensures
            call_ensures(T::mul, (self.x, rhs), r.x),
            call_ensures(T::mul, (self.y, rhs), r.y),
            call_ensures(T::mul, (self.z, rhs), r.z),
            call_ensures(T::mul, (self.w, rhs), r.w),
    {
        Float4 { x: self.x * rhs, y: self.y * rhs, z: self.z * rhs, w: self.w * rhs }
    }
}

impl<T: Copy + core::ops::Mul<Output = T>> vstd::std_specs::ops::MulSpecImpl<T> for Float4<T> {
    open spec fn obeys_mul_spec() -> bool {
        T::obeys_mul_spec()
    }

    open spec fn mul_req(self, rhs: T) -> bool {
        self.x.mul_req(rhs) && self.y.mul_req(rhs) && self.z.mul_req(rhs) && self.w.mul_req(rhs)
    }

    open spec fn mul_spec(self, rhs: T) -> Float4<T> {
        Float4 {
            x: self.x.mul_spec(rhs),
            y: self.y.mul_spec(rhs),
            z: self.z.mul_spec(rhs),
            w: self.w.mul_spec(rhs),
        }
    }
}

impl<T: Copy + core::ops::Mul<Output = T>> core::ops::MulAssign<T> for Float4<T> {
    /// Replaces each component with its product with the scalar `rhs`.
    fn mul_assign(&mut self, rhs: T)
        requires
            old(self).x.mul_req(rhs),
            old(self).y.mul_req(rhs),
            old(self).z.mul_req(rhs),
            old(self).w.mul_req(rhs),
        ensures
            call_ensures(T::mul, (old(self).x, rhs), final(self).x),
            call_ensures(T::mul, (old(self).y, rhs), final(self).y),
            call_ensures(T::mul, (old(self).z, rhs), final(self).z),
            call_ensures(T::mul, (old(self).w, rhs), final(self).w),
    {
        self.x = self.x * rhs;
        self.y = self.y * rhs;
        self.z = self.z * rhs;
        self.w = self.w * rhs;
    }
}

impl<T: Copy + core::ops::Div<Output = T>> core::ops::Div<Float4<T>> for Float4<T> {
    type Output = Float4<T>;

    /// Component-wise quotient of `self` and the matching components of `rhs`.
    fn div(self, rhs: Float4<T>) -> (r: Float4<T>)
        ensures
            call_ensures(T::div, (self.x, rhs.x), r.x),
            call_ensures(T::div, (self.y, rhs.y), r.y),
            call_ensures(T::div, (self.z, rhs.z), r.z),
            call_ensures(T::div, (self.w, rhs.w), r.w),
    {
        Float4 { x: self.x / rhs.x, y: self.y / rhs.y, z: self.z / rhs.z, w: self.w / rhs.w }
    }
}

impl<T: Copy + core::ops::Div<Output = T>> vstd::std_specs::ops::DivSpecImpl<Float4<T>> for Float4<T> {
    open spec fn obeys_div_spec() -> bool {
        T::obeys_div_spec()
    }

    open spec fn div_req(self, rhs: Float4<T>) -> bool {
        self.x.div_req(rhs.x)
            && self.y.div_req(rhs.y)
            && self.z.div_req(rhs.z)
            && self.w.div_req(rhs.w)
    }

    open spec fn div_spec(self, rhs: Float4<T>) -> Float4<T> {
        Float4 {
            x: self.x.div_spec(rhs.x),
            y: self.y.div_spec(rhs.y),
            z: self.z.div_spec(rhs.z),
            w: self.w.div_spec(rhs.w),
        }
    }
}

impl<T: Copy + core::ops::Div<Output = T>> core::ops::DivAssign<Float4<T>> for Float4<T> {
    /// Replaces each component with its quotient with the matching components of `rhs`.
    fn div_assign(&mut self, rhs: Float4<T>)
        requires
            old(self).x.div_req(rhs.x),
            old(self).y.div_req(rhs.y),
            old(self).z.div_req(rhs.z),
            old(self).w.div_req(rhs.w),
        ensures
            call_ensures(T::div, (old(self).x, rhs.x), final(self).x),
            call_ensures(T::div, (old(self).y, rhs.y), final(self).y),
            call_ensures(T::div, (old(self).z, rhs.z), final(self).z),
            call_ensures(T::div, (old(self).w, rhs.w), final(self).w),
    {
        self.x = self.x / rhs.x;
        self.y = self.y / rhs.y;
        self.z = self.z / rhs.z;
        self.w = self.w / rhs.w;
    }
}

impl<T: Copy + core::ops::Div<Output = T>> core::ops::Div<T> for Float4<T> {
    type Output = Float4<T>;

    /// Component-wise quotient of `self` and the scalar `rhs`.
    fn div(self, rhs: T) -> (r: Float4<T>)
        ensures
            call_ensures(T::div, (self.x, rhs), r.x),
            call_ensures(T::div, (self.y, rhs), r.y),
            call_ensures(T::div, (self.z, rhs), r.z),
            call_ensures(T::div, (self.w, rhs), r.w),
    {
        Float4 { x: self.x / rhs, y: self.y / rhs, z: self.z / rhs, w: self.w / rhs }
    }
}

impl<T: Copy + core::ops::Div<Output = T>> vstd::std_specs::ops::DivSpecImpl<T> for Float4<T> {
    open spec fn obeys_div_spec() -> bool {
        T::obeys_div_spec()
    }

    open spec fn div_req(self, rhs: T) -> bool {
        self.x.div_req(rhs) && self.y.div_req(rhs) && self.z.div_req(rhs) && self.w.div_req(rhs)
    }

    open spec fn div_spec(self, rhs: T) -> Float4<T> {
        Float4 {
            x: self.x.div_spec(rhs),
            y: self.y.div_spec(rhs),
            z: self.z.div_spec(rhs),
            w: self.w.div_spec(rhs),
        }
    }
}

impl<T: Copy + core::ops::Div<Output = T>> core::ops::DivAssign<T> for Float4<T> {
    /// Replaces each component with its quotient with the scalar `rhs`.
    fn div_assign(&mut self, rhs: T)
        requires
            old(self).x.div_req(rhs),
            old(self).y.div_req(rhs),
            old(self).z.div_req(rhs),
            old(self).w.div_req(rhs),
        ensures
            call_ensures(T::div, (old(self).x, rhs), final(self).x),
            call_ensures(T::div, (old(self).y, rhs), final(self).y),
            call_ensures(T::div, (old(self).z, rhs), final(self).z),
            call_ensures(T::div, (old(self).w, rhs), final(self).w),
    {
        self.x = self.x / rhs;
        self.y = self.y / rhs;
        self.z = self.z / rhs;
        self.w = self.w / rhs;
    }
}

impl<T: Copy + core::ops::Neg<Output = T>> core::ops::Neg for Float4<T> {
    type Output = Float4<T>;

    /// Negates every component.
    fn neg(self) -> (r: Float4<T>)
        ensures
            call_ensures(T::neg, (self.x,), r.x),
            call_ensures(T::neg, (self.y,), r.y),
            call_ensures(T::neg, (self.z,), r.z),
            call_ensures(T::neg, (self.w,), r.w),
    {
        Float4 {
            x: core::ops::Neg::neg(self.x),
            y: core::ops::Neg::neg(self.y),
            z: core::ops::Neg::neg(self.z),
            w: core::ops::Neg::neg(self.w),
        }
    }
}

impl<T: Copy + core::ops::Neg<Output = T>> vstd::std_specs::ops::NegSpecImpl for Float4<T> {
    open spec fn obeys_neg_spec() -> bool {
        T::obeys_neg_spec()
    }

    open spec fn neg_req(self) -> bool {
        self.x.neg_req() && self.y.neg_req() && self.z.neg_req() && self.w.neg_req()
    }

    open spec fn neg_spec(self) -> Float4<T> {
        Float4 {
            x: self.x.neg_spec(),
            y: self.y.neg_spec(),
            z: self.z.neg_spec(),
            w: self.w.neg_spec(),
        }
    }
}

impl<T: PartialEq> PartialEq for Float4<T> {
    /// Two vectors are equal when every pair of matching components compares equal
    /// under the scalar type's own `==`; with a scalar that is never equal to itself
    /// (a NaN), the vectors that hold it are never equal either.
    fn eq(&self, rhs: &Float4<T>) -> (r: bool)
        ensures
            r ==> (
                call_ensures(T::eq, (&self.x, &rhs.x), true)
                && call_ensures(T::eq, (&self.y, &rhs.y), true)
                && call_ensures(T::eq, (&self.z, &rhs.z), true)
                && call_ensures(T::eq, (&self.w, &rhs.w), true)
            ),
            !r ==> (
                call_ensures(T::eq, (&self.x, &rhs.x), false)
                || call_ensures(T::eq, (&self.y, &rhs.y), false)
                || call_ensures(T::eq, (&self.z, &rhs.z), false)
                || call_ensures(T::eq, (&self.w, &rhs.w), false)
            ),
    {
        self.x == rhs.x && self.y == rhs.y && self.z == rhs.z && self.w == rhs.w
    }
}

impl<T: PartialEq> vstd::std_specs::cmp::PartialEqSpecImpl for Float4<T> {
    open spec fn obeys_eq_spec() -> bool {
        T::obeys_eq_spec()
    }

    open spec fn eq_spec(&self, rhs: &Float4<T>) -> bool {
        self.x.eq_spec(&rhs.x)
            && self.y.eq_spec(&rhs.y)
            && self.z.eq_spec(&rhs.z)
            && self.w.eq_spec(&rhs.w)
    }
}

impl<T: Copy> From<T> for Float4<T> {
    /// Broadcasts one scalar to every component.
    fn from(v: T) -> (r: Float4<T>)
        ensures
            r == Float4::<T>::splat(v),
    {
        Float4 { x: v, y: v, z: v, w: v }
    }
}

impl<T: Copy> vstd::std_specs::convert::FromSpecImpl<T> for Float4<T> {
    open spec fn obeys_from_spec() -> bool {
        true
    }

    open spec fn from_spec(v: T) -> Float4<T> {
        Float4::<T>::splat(v)
    }
}

impl<T: Copy> From<(T, T, T, T)> for Float4<T> {
    /// Takes the tuple's elements as the components, in field order.
    fn from(v: (T, T, T, T)) -> (r: Float4<T>)
        ensures
            r == Float4::<T>::from_tuple(v),
    {
        Float4 { x: v.0, y: v.1, z: v.2, w: v.3 }
    }
}

impl<T: Copy> vstd::std_specs::convert::FromSpecImpl<(T, T, T, T)> for Float4<T> {
    open spec fn obeys_from_spec() -> bool {
        true
    }

    open spec fn from_spec(v: (T, T, T, T)) -> Float4<T> {
        Float4::<T>::from_tuple(v)
    }
}

impl<T: Copy + core::ops::Add<Output = T> + core::ops::Mul<Output = T>> Float4<T> {
    /// `r` is a result that the scalar type gives for the dot product of `self` and
    /// `rhs`, summed from the first component to the last.
    pub open spec fn dot_of(self, rhs: Float4<T>, r: T) -> bool {
        exists|p: T, s1: T, s2: T|
            #[trigger] call_ensures(T::mul, (self.x, rhs.x), p)
                && #[trigger] scalar::product_add_of(p, self.y, rhs.y, s1)
                && #[trigger] scalar::product_add_of(s1, self.z, rhs.z, s2)
                && #[trigger] scalar::product_add_of(s2, self.w, rhs.w, r)
    }

    /// The scalar type can evaluate every step of the dot product of `self` and `rhs`.
    pub open spec fn dot_req(self, rhs: Float4<T>) -> bool {
        &&& self.x.mul_req(rhs.x)
        &&& forall|p: T| #[trigger] call_ensures(T::mul, (self.x, rhs.x), p) ==> (
            scalar::product_add_req(p, self.y, rhs.y) && forall|s1: T|
                #[trigger] scalar::product_add_of(p, self.y, rhs.y, s1) ==> (
                    scalar::product_add_req(s1, self.z, rhs.z) && forall|s2: T|
                        #[trigger] scalar::product_add_of(s1, self.z, rhs.z, s2) ==> (
                            scalar::product_add_req(s2, self.w, rhs.w)
                        )
                )
        )
    }

    /// Computes the dot product: the sum of the products of matching components.
    pub fn dot(&self, rhs: &Float4<T>) -> (r: T)
        requires
            self.dot_req(*rhs),
        ensures
            self.dot_of(*rhs, r),
    {
        let p = self.x * rhs.x;
        let s1 = scalar::product_add(p, self.y, rhs.y);
        let s2 = scalar::product_add(s1, self.z, rhs.z);
        let r = scalar::product_add(s2, self.w, rhs.w);
        r
    }

    /// Computes the component-wise multiply-add `self * b + c`.
    pub fn mad(&self, b: &Float4<T>, c: &Float4<T>) -> (r: Float4<T>)
        requires
            scalar::mad_req(self.x, b.x, c.x),
            scalar::mad_req(self.y, b.y, c.y),
            scalar::mad_req(self.z, b.z, c.z),
            scalar::mad_req(self.w, b.w, c.w),
        ensures
            scalar::mad_of(self.x, b.x, c.x, r.x),
            scalar::mad_of(self.y, b.y, c.y, r.y),
            scalar::mad_of(self.z, b.z, c.z, r.z),
            scalar::mad_of(self.w, b.w, c.w, r.w),
    {
        Float4 {
            x: scalar::mad(self.x, b.x, c.x),
            y: scalar::mad(self.y, b.y, c.y),
            z: scalar::mad(self.z, b.z, c.z),
            w: scalar::mad(self.w, b.w, c.w),
        }
    }
}

impl<T: Copy + core::ops::Add<Output = T> + core::ops::Sub<Output = T> + core::ops::Mul<Output = T>> Float4<T> {
    /// Computes the linear interpolation `self + t * (rhs - self)` per component;
    /// `t` is not clamped, so values outside `[0, 1]` extrapolate.
    pub fn lerp(&self, rhs: &Float4<T>, t: T) -> (r: Float4<T>)
        requires
            scalar::lerp_req(self.x, rhs.x, t),
            scalar::lerp_req(self.y, rhs.y, t),
            scalar::lerp_req(self.z, rhs.z, t),
            scalar::lerp_req(self.w, rhs.w, t),
        ensures
            scalar::lerp_of(self.x, rhs.x, t, r.x),
            scalar::lerp_of(self.y, rhs.y, t, r.y),
            scalar::lerp_of(self.z, rhs.z, t, r.z),
            scalar::lerp_of(self.w, rhs.w, t, r.w),
    {
        Float4 {
            x: scalar::lerp(self.x, rhs.x, t),
            y: scalar::lerp(self.y, rhs.y, t),
            z: scalar::lerp(self.z, rhs.z, t),
            w: scalar::lerp(self.w, rhs.w, t),
        }
    }
}
impl<T: Copy> Float4<T> {
    /// The vector whose every component is `v`.
    pub open spec fn splat(v: T) -> Float4<T> {
        Float4 { x: v, y: v, z: v, w: v }
    }

    /// The vector whose components are the tuple's elements, in field order.
    pub open spec fn from_tuple(v: (T, T, T, T)) -> Float4<T> {
        Float4 { x: v.0, y: v.1, z: v.2, w: v.3 }
    }

    /// Creates a vector from four components, in field order.
    pub fn new(x: T, y: T, z: T, w: T) -> (r: Self)
        ensures
            r == (Float4 { x, y, z, w }),
    {
        Float4 { x, y, z, w }
    }

    /// Returns the vector (x, x) of this vector's components.
    pub fn xx(&self) -> (r: Float2<T>)
        ensures
            r == (Float2 { x: self.x, y: self.x }),
    {
        Float2 { x: self.x, y: self.x }
    }

    /// Returns the vector (x, y) of this vector's components.
    pub fn xy(&self) -> (r: Float2<T>)
        ensures
            r == (Float2 { x: self.x, y: self.y }),
    {
        Float2 { x: self.x, y: self.y }
    }

    /// Returns the vector (x, z) of this vector's components.
    pub fn xz(&self) -> (r: Float2<T>)
        ensures
            r == (Float2 { x: self.x, y: self.z }),
    {
        Float2 { x: self.x, y: self.z }
    }

    /// Returns the vector (x, w) of this vector's components.
    pub fn xw(&self) -> (r: Float2<T>)
        ensures
            r == (Float2 { x: self.x, y: self.w }),
    {
        Float2 { x: self.x, y: self.w }
    }

    /// Returns the vector (y, x) of this vector's components.
    pub fn yx(&self) -> (r: Float2<T>)
        ensures
            r == (Float2 { x: self.y, y: self.x }),
    {
        Float2 { x: self.y, y: self.x }
    }

    /// Returns the vector (y, y) of this vector's components.
    pub fn yy(&self) -> (r: Float2<T>)
        ensures
            r == (Float2 { x: self.y, y: self.y }),
    {
        Float2 { x: self.y, y: self.y }
    }

    /// Returns the vector (y, z) of this vector's components.
    pub fn yz(&self) -> (r: Float2<T>)
        ensures
            r == (Float2 { x: self.y, y: self.z }),
    {
        Float2 { x: self.y, y: self.z }
    }

    /// Returns the vector (y, w) of this vector's components.
    pub fn yw(&self) -> (r: Float2<T>)
        ensures
            r == (Float2 { x: self.y, y: self.w }),
    {
        Float2 { x: self.y, y: self.w }
    }

    /// Returns the vector (z, x) of this vector's components.
    pub fn zx(&self) -> (r: Float2<T>)
        ensures
            r == (Float2 { x: self.z, y: self.x }),
    {
        Float2 { x: self.z, y: self.x }
    }

    /// Returns the vector (z, y) of this vector's components.
    pub fn zy(&self) -> (r: Float2<T>)
        ensures
            r == (Float2 { x: self.z, y: self.y }),
    {
        Float2 { x: self.z, y: self.y }
    }

    /// Returns the vector (z, z) of this vector's components.
    pub fn zz(&self) -> (r: Float2<T>)
        ensures
            r == (Float2 { x: self.z, y: self.z }),
    {
        Float2 { x: self.z, y: self.z }
    }

    /// Returns the vector (z, w) of this vector's components.
    pub fn zw(&self) -> (r: Float2<T>)
        ensures
            r == (Float2 { x: self.z, y: self.w }),
    {
        Float2 { x: self.z, y: self.w }
    }

    /// Returns the vector (w, x) of this vector's components.
    pub fn wx(&self) -> (r: Float2<T>)
        ensures
            r == (Float2 { x: self.w, y: self.x }),
    {
        Float2 { x: self.w, y: self.x }
    }

    /// Returns the vector (w, y) of this vector's components.
    pub fn wy(&self) -> (r: Float2<T>)
        ensures
            r == (Float2 { x: self.w, y: self.y }),
    {
        Float2 { x: self.w, y: self.y }
    }

    /// Returns the vector (w, z) of this vector's components.
    pub fn wz(&self) -> (r: Float2<T>)
        ensures
            r == (Float2 { x: self.w, y: self.z }),
    {
        Float2 { x: self.w, y: self.z }
    }

    /// Returns the vector (w, w) of this vector's components.
    pub fn ww(&self) -> (r: Float2<T>)
        ensures
            r == (Float2 { x: self.w, y: self.w }),
    {
        Float2 { x: self.w, y: self.w }
    }

    /// Returns the vector (x, x, x) of this vector's components.
    pub fn xxx(&self) -> (r: Float3<T>)
        ensures
            r == (Float3 { x: self.x, y: self.x, z: self.x }),
    {
        Float3 { x: self.x, y: self.x, z: self.x }
    }

    /// Returns the vector (x, x, y) of this vector's components.
    pub fn xxy(&self) -> (r: Float3<T>)
        ensures
            r == (Float3 { x: self.x, y: self.x, z: self.y }),
    {
        Float3 { x: self.x, y: self.x, z: self.y }
    }

    /// Returns the vector (x, x, z) of this vector's components.
    pub fn xxz(&self) -> (r: Float3<T>)
        ensures
            r == (Float3 { x: self.x, y: self.x, z: self.z }),
    {
        Float3 { x: self.x, y: self.x, z: self.z }
    }

    /// Returns the vector (x, x, w) of this vector's components.
    pub fn xxw(&self) -> (r: Float3<T>)
        ensures
            r == (Float3 { x: self.x, y: self.x, z: self.w }),
    {
        Float3 { x: self.x, y: self.x, z: self.w }
    }

    /// Returns the vector (x, y, x) of this vector's components.
    pub fn xyx(&self) -> (r: Float3<T>)
        ensures
            r == (Float3 { x: self.x, y: self.y, z: self.x }),
    {
        Float3 { x: self.x, y: self.y, z: self.x }
    }

    /// Returns the vector (x, y, y) of this vector's components.
    pub fn xyy(&self) -> (r: Float3<T>)
        ensures
            r == (Float3 { x: self.x, y: self.y, z: self.y }),
    {
        Float3 { x: self.x, y: self.y, z: self.y }
    }

    /// Returns the vector (x, y, z) of this vector's components.
    pub fn xyz(&self) -> (r: Float3<T>)
        ensures
            r == (Float3 { x: self.x, y: self.y, z: self.z }),
    {
        Float3 { x: self.x, y: self.y, z: self.z }
    }

    /// Returns the vector (x, y, w) of this vector's components.
    pub fn xyw(&self) -> (r: Float3<T>)
        ensures
            r == (Float3 { x: self.x, y: self.y, z: self.w }),
    {
        Float3 { x: self.x, y: self.y, z: self.w }
    }

    /// Returns the vector (x, z, x) of this vector's components.
    pub fn xzx(&self) -> (r: Float3<T>)
        ensures
            r == (Float3 { x: self.x, y: self.z, z: self.x }),
    {
        Float3 { x: self.x, y: self.z, z: self.x }
    }

    /// Returns the vector (x, z, y) of this vector's components.
    pub fn xzy(&self) -> (r: Float3<T>)
        ensures
            r == (Float3 { x: self.x, y: self.z, z: self.y }),
    {
        Float3 { x: self.x, y: self.z, z: self.y }
    }

    /// Returns the vector (x, z, z) of this vector's components.
    pub fn xzz(&self) -> (r: Float3<T>)
        ensures
            r == (Float3 { x: self.x, y: self.z, z: self.z }),
    {
        Float3 { x: self.x, y: self.z, z: self.z }
    }

    /// Returns the vector (x, z, w) of this vector's components.
    pub fn xzw(&self) -> (r: Float3<T>)
        ensures
            r == (Float3 { x: self.x, y: self.z, z: self.w }),
    {
        Float3 { x: self.x, y: self.z, z: self.w }
    }

    /// Returns the vector (x, w, x) of this vector's components.
    pub fn xwx(&self) -> (r: Float3<T>)
        ensures
            r == (Float3 { x: self.x, y: self.w, z: self.x }),
    {
        Float3 { x: self.x, y: self.w, z: self.x }
    }

    /// Returns the vector (x, w, y) of this vector's components.
    pub fn xwy(&self) -> (r: Float3<T>)
        ensures
            r == (Float3 { x: self.x, y: self.w, z: self.y }),
    {
        Float3 { x: self.x, y: self.w, z: self.y }
    }

    /// Returns the vector (x, w, z) of this vector's components.
    pub fn xwz(&self) -> (r: Float3<T>)
        ensures
            r == (Float3 { x: self.x, y: self.w, z: self.z }),
    {
        Float3 { x: self.x, y: self.w, z: self.z }
    }

    /// Returns the vector (x, w, w) of this vector's components.
    pub fn xww(&self) -> (r: Float3<T>)
        ensures
            r == (Float3 { x: self.x, y: self.w, z: self.w }),
    {
        Float3 { x: self.x, y: self.w, z: self.w }
    }

    /// Returns the vector (y, x, x) of this vector's components.
    pub fn yxx(&self) -> (r: Float3<T>)
        ensures
            r == (Float3 { x: self.y, y: self.x, z: self.x }),
    {
        Float3 { x: self.y, y: self.x, z: self.x }
    }

    /// Returns the vector (y, x, y) of this vector's components.
    pub fn yxy(&self) -> (r: Float3<T>)
        ensures
            r == (Float3 { x: self.y, y: self.x, z: self.y }),
    {
        Float3 { x: self.y, y: self.x, z: self.y }
    }

    /// Returns the vector (y, x, z) of this vector's components.
    pub fn yxz(&self) -> (r: Float3<T>)
        ensures
            r == (Float3 { x: self.y, y: self.x, z: self.z }),
    {
        Float3 { x: self.y, y: self.x, z: self.z }
    }

    /// Returns the vector (y, x, w) of this vector's components.
    pub fn yxw(&self) -> (r: Float3<T>)
        ensures
            r == (Float3 { x: self.y, y: self.x, z: self.w }),
    {
        Float3 { x: self.y, y: self.x, z: self.w }
    }

    /// Returns the vector (y, y, x) of this vector's components.
    pub fn yyx(&self) -> (r: Float3<T>)
        ensures
            r == (Float3 { x: self.y, y: self.y, z: self.x }),
    {
        Float3 { x: self.y, y: self.y, z: self.x }
    }

    /// Returns the vector (y, y, y) of this vector's components.
    pub fn yyy(&self) -> (r: Float3<T>)
        ensures
            r == (Float3 { x: self.y, y: self.y, z: self.y }),
    {
        Float3 { x: self.y, y: self.y, z: self.y }
    }

    /// Returns the vector (y, y, z) of this vector's components.
    pub fn yyz(&self) -> (r: Float3<T>)
        ensures
            r == (Float3 { x: self.y, y: self.y, z: self.z }),
    {
        Float3 { x: self.y, y: self.y, z: self.z }
    }

    /// Returns the vector (y, y, w) of this vector's components.
    pub fn yyw(&self) -> (r: Float3<T>)
        ensures
            r == (Float3 { x: self.y, y: self.y, z: self.w }),
    {
        Float3 { x: self.y, y: self.y, z: self.w }
    }

    /// Returns the vector (y, z, x) of this vector's components.
    pub fn yzx(&self) -> (r: Float3<T>)
        ensures
            r == (Float3 { x: self.y, y: self.z, z: self.x }),
    {
        Float3 { x: self.y, y: self.z, z: self.x }
    }

    /// Returns the vector (y, z, y) of this vector's components.
    pub fn yzy(&self) -> (r: Float3<T>)
        ensures
            r == (Float3 { x: self.y, y: self.z, z: self.y }),
    {
        Float3 { x: self.y, y: self.z, z: self.y }
    }

    /// Returns the vector (y, z, z) of this vector's components.
    pub fn yzz(&self) -> (r: Float3<T>)
        ensures
            r == (Float3 { x: self.y, y: self.z, z: self.z }),
    {
        Float3 { x: self.y, y: self.z, z: self.z }
    }

    /// Returns the vector (y, z, w) of this vector's components.
    pub fn yzw(&self) -> (r: Float3<T>)
        ensures
            r == (Float3 { x: self.y, y: self.z, z: self.w }),
    {
        Float3 { x: self.y, y: self.z, z: self.w }
    }

    /// Returns the vector (y, w, x) of this vector's components.
    pub fn ywx(&self) -> (r: Float3<T>)
        ensures
            r == (Float3 { x: self.y, y: self.w, z: self.x }),
    {
        Float3 { x: self.y, y: self.w, z: self.x }
    }

    /// Returns the vector (y, w, y) of this vector's components.
    pub fn ywy(&self) -> (r: Float3<T>)
        ensures
            r == (Float3 { x: self.y, y: self.w, z: self.y }),
    {
        Float3 { x: self.y, y: self.w, z: self.y }
    }

    /// Returns the vector (y, w, z) of this vector's components.
    pub fn ywz(&self) -> (r: Float3<T>)
        ensures
            r == (Float3 { x: self.y, y: self.w, z: self.z }),
    {
        Float3 { x: self.y, y: self.w, z: self.z }
    }

    /// Returns the vector (y, w, w) of this vector's components.
    pub fn yww(&self) -> (r: Float3<T>)
        ensures
            r == (Float3 { x: self.y, y: self.w, z: self.w }),
    {
        Float3 { x: self.y, y: self.w, z: self.w }
    }

    /// Returns the vector (z, x, x) of this vector's components.
    pub fn zxx(&self) -> (r: Float3<T>)
        ensures
            r == (Float3 { x: self.z, y: self.x, z: self.x }),
    {
        Float3 { x: self.z, y: self.x, z: self.x }
    }

    /// Returns the vector (z, x, y) of this vector's components.
    pub fn zxy(&self) -> (r: Float3<T>)
        ensures
            r == (Float3 { x: self.z, y: self.x, z: self.y }),
    {
        Float3 { x: self.z, y: self.x, z: self.y }
    }

    /// Returns the vector (z, x, z) of this vector's components.
    pub fn zxz(&self) -> (r: Float3<T>)
        ensures
            r == (Float3 { x: self.z, y: self.x, z: self.z }),
    {
        Float3 { x: self.z, y: self.x, z: self.z }
    }

    /// Returns the vector (z, x, w) of this vector's components.
    pub fn zxw(&self) -> (r: Float3<T>)
        ensures
            r == (Float3 { x: self.z, y: self.x, z: self.w }),
    {
        Float3 { x: self.z, y: self.x, z: self.w }
    }

    /// Returns the vector (z, y, x) of this vector's components.
    pub fn zyx(&self) -> (r: Float3<T>)
        ensures
            r == (Float3 { x: self.z, y: self.y, z: self.x }),
    {
        Float3 { x: self.z, y: self.y, z: self.x }
    }

    /// Returns the vector (z, y, y) of this vector's components.
    pub fn zyy(&self) -> (r: Float3<T>)
        ensures
            r == (Float3 { x: self.z, y: self.y, z: self.y }),
    {
        Float3 { x: self.z, y: self.y, z: self.y }
    }

    /// Returns the vector (z, y, z) of this vector's components.
    pub fn zyz(&self) -> (r: Float3<T>)
        ensures
            r == (Float3 { x: self.z, y: self.y, z: self.z }),
    {
        Float3 { x: self.z, y: self.y, z: self.z }
    }

    /// Returns the vector (z, y, w) of this vector's components.
    pub fn zyw(&self) -> (r: Float3<T>)
        ensures
            r == (Float3 { x: self.z, y: self.y, z: self.w }),
    {
        Float3 { x: self.z, y: self.y, z: self.w }
    }

    /// Returns the vector (z, z, x) of this vector's components.
    pub fn zzx(&self) -> (r: Float3<T>)
        ensures
            r == (Float3 { x: self.z, y: self.z, z: self.x }),
    {
        Float3 { x: self.z, y: self.z, z: self.x }
    }

    /// Returns the vector (z, z, y) of this vector's components.
    pub fn zzy(&self) -> (r: Float3<T>)
        ensures
            r == (Float3 { x: self.z, y: self.z, z: self.y }),
    {
        Float3 { x: self.z, y: self.z, z: self.y }
    }

    /// Returns the vector (z, z, z) of this vector's components.
    pub fn zzz(&self) -> (r: Float3<T>)
        ensures
            r == (Float3 { x: self.z, y: self.z, z: self.z }),
    {
        Float3 { x: self.z, y: self.z, z: self.z }
    }

    /// Returns the vector (z, z, w) of this vector's components.
    pub fn zzw(&self) -> (r: Float3<T>)
        ensures
            r == (Float3 { x: self.z, y: self.z, z: self.w }),
    {
        Float3 { x: self.z, y: self.z, z: self.w }
    }

    /// Returns the vector (z, w, x) of this vector's components.
    pub fn zwx(&self) -> (r: Float3<T>)
        ensures
            r == (Float3 { x: self.z, y: self.w, z: self.x }),
    {
        Float3 { x: self.z, y: self.w, z: self.x }
    }

    /// Returns the vector (z, w, y) of this vector's components.
    pub fn zwy(&self) -> (r: Float3<T>)
        ensures
            r == (Float3 { x: self.z, y: self.w, z: self.y }),
    {
        Float3 { x: self.z, y: self.w, z: self.y }
    }

    /// Returns the vector (z, w, z) of this vector's components.
    pub fn zwz(&self) -> (r: Float3<T>)
        ensures
            r == (Float3 { x: self.z, y: self.w, z: self.z }),
    {
        Float3 { x: self.z, y: self.w, z: self.z }
    }

    /// Returns the vector (z, w, w) of this vector's components.
    pub fn zww(&self) -> (r: Float3<T>)
        ensures
            r == (Float3 { x: self.z, y: self.w, z: self.w }),
    {
        Float3 { x: self.z, y: self.w, z: self.w }
    }

    /// Returns the vector (w, x, x) of this vector's components.
    pub fn wxx(&self) -> (r: Float3<T>)
        ensures
            r == (Float3 { x: self.w, y: self.x, z: self.x }),
    {
        Float3 { x: self.w, y: self.x, z: self.x }
    }

    /// Returns the vector (w, x, y) of this vector's components.
    pub fn wxy(&self) -> (r: Float3<T>)
        ensures
            r == (Float3 { x: self.w, y: self.x, z: self.y }),
    {
        Float3 { x: self.w, y: self.x, z: self.y }
    }

    /// Returns the vector (w, x, z) of this vector's components.
    pub fn wxz(&self) -> (r: Float3<T>)
        ensures
            r == (Float3 { x: self.w, y: self.x, z: self.z }),
    {
        Float3 { x: self.w, y: self.x, z: self.z }
    }

    /// Returns the vector (w, x, w) of this vector's components.
    pub fn wxw(&self) -> (r: Float3<T>)
        ensures
            r == (Float3 { x: self.w, y: self.x, z: self.w }),
    {
        Float3 { x: self.w, y: self.x, z: self.w }
    }

    /// Returns the vector (w, y, x) of this vector's components.
    pub fn wyx(&self) -> (r: Float3<T>)
        ensures
            r == (Float3 { x: self.w, y: self.y, z: self.x }),
    {
        Float3 { x: self.w, y: self.y, z: self.x }
    }

    /// Returns the vector (w, y, y) of this vector's components.
    pub fn wyy(&self) -> (r: Float3<T>)
        ensures
            r == (Float3 { x: self.w, y: self.y, z: self.y }),
    {
        Float3 { x: self.w, y: self.y, z: self.y }
    }

    /// Returns the vector (w, y, z) of this vector's components.
    pub fn wyz(&self) -> (r: Float3<T>)
        ensures
            r == (Float3 { x: self.w, y: self.y, z: self.z }),
    {
        Float3 { x: self.w, y: self.y, z: self.z }
    }

    /// Returns the vector (w, y, w) of this vector's components.
    pub fn wyw(&self) -> (r: Float3<T>)
        ensures
            r == (Float3 { x: self.w, y: self.y, z: self.w }),
    {
        Float3 { x: self.w, y: self.y, z: self.w }
    }

    /// Returns the vector (w, z, x) of this vector's components.
    pub fn wzx(&self) -> (r: Float3<T>)
        ensures
            r == (Float3 { x: self.w, y: self.z, z: self.x }),
    {
        Float3 { x: self.w, y: self.z, z: self.x }
    }

    /// Returns the vector (w, z, y) of this vector's components.
    pub fn wzy(&self) -> (r: Float3<T>)
        ensures
            r == (Float3 { x: self.w, y: self.z, z: self.y }),
    {
        Float3 { x: self.w, y: self.z, z: self.y }
    }

    /// Returns the vector (w, z, z) of this vector's components.
    pub fn wzz(&self) -> (r: Float3<T>)
        ensures
            r == (Float3 { x: self.w, y: self.z, z: self.z }),
    {
        Float3 { x: self.w, y: self.z, z: self.z }
    }

    /// Returns the vector (w, z, w) of this vector's components.
    pub fn wzw(&self) -> (r: Float3<T>)
        ensures
            r == (Float3 { x: self.w, y: self.z, z: self.w }),
    {
        Float3 { x: self.w, y: self.z, z: self.w }
    }

    /// Returns the vector (w, w, x) of this vector's components.
    pub fn wwx(&self) -> (r: Float3<T>)
        ensures
            r == (Float3 { x: self.w, y: self.w, z: self.x }),
    {
        Float3 { x: self.w, y: self.w, z: self.x }
    }

    /// Returns the vector (w, w, y) of this vector's components.
    pub fn wwy(&self) -> (r: Float3<T>)
        ensures
            r == (Float3 { x: self.w, y: self.w, z: self.y }),
    {
        Float3 { x: self.w, y: self.w, z: self.y }
    }

    /// Returns the vector (w, w, z) of this vector's components.
    pub fn wwz(&self) -> (r: Float3<T>)
        ensures
            r == (Float3 { x: self.w, y: self.w, z: self.z }),
    {
        Float3 { x: self.w, y: self.w, z: self.z }
    }

    /// Returns the vector (w, w, w) of this vector's components.
    pub fn www(&self) -> (r: Float3<T>)
        ensures
            r == (Float3 { x: self.w, y: self.w, z: self.w }),
    {
        Float3 { x: self.w, y: self.w, z: self.w }
    }

    /// Returns the vector (x, x, x, x) of this vector's components.
    pub fn xxxx(&self) -> (r: Float4<T>)
        ensures
            r == (Float4 { x: self.x, y: self.x, z: self.x, w: self.x }),
    {
        Float4 { x: self.x, y: self.x, z: self.x, w: self.x }
    }

    /// Returns the vector (x, x, x, y) of this vector's components.
    pub fn xxxy(&self) -> (r: Float4<T>)
        ensures
            r == (Float4 { x: self.x, y: self.x, z: self.x, w: self.y }),
    {
        Float4 { x: self.x, y: self.x, z: self.x, w: self.y }
    }

    /// Returns the vector (x, x, x, z) of this vector's components.
    pub fn xxxz(&self) -> (r: Float4<T>)
        ensures
            r == (Float4 { x: self.x, y: self.x, z: self.x, w: self.z }),
    {
        Float4 { x: self.x, y: self.x, z: self.x, w: self.z }
    }

    /// Returns the vector (x, x, x, w) of this vector's components.
    pub fn xxxw(&self) -> (r: Float4<T>)
        ensures
            r == (Float4 { x: self.x, y: self.x, z: self.x, w: self.w }),
    {
        Float4 { x: self.x, y: self.x, z: self.x, w: self.w }
    }

    /// Returns the vector (x, x, y, x) of this vector's components.
    pub fn xxyx(&self) -> (r: Float4<T>)
        ensures
            r == (Float4 { x: self.x, y: self.x, z: self.y, w: self.x }),
    {
        Float4 { x: self.x, y: self.x, z: self.y, w: self.x }
    }

    /// Returns the vector (x, x, y, y) of this vector's components.
    pub fn xxyy(&self) -> (r: Float4<T>)
        ensures
            r == (Float4 { x: self.x, y: self.x, z: self.y, w: self.y }),
    {
        Float4 { x: self.x, y: self.x, z: self.y, w: self.y }
    }

    /// Returns the vector (x, x, y, z) of this vector's components.
    pub fn xxyz(&self) -> (r: Float4<T>)
        ensures
            r == (Float4 { x: self.x, y: self.x, z: self.y, w: self.z }),
    {
        Float4 { x: self.x, y: self.x, z: self.y, w: self.z }
    }

    /// Returns the vector (x, x, y, w) of this vector's components.
    pub fn xxyw(&self) -> (r: Float4<T>)
        ensures
            r == (Float4 { x: self.x, y: self.x, z: self.y, w: self.w }),
    {
        Float4 { x: self.x, y: self.x, z: self.y, w: self.w }
    }

    /// Returns the vector (x, x, z, x) of this vector's components.
    pub fn xxzx(&self) -> (r: Float4<T>)
        ensures
            r == (Float4 { x: self.x, y: self.x, z: self.z, w: self.x }),
    {
        Float4 { x: self.x, y: self.x, z: self.z, w: self.x }
    }

    /// Returns the vector (x, x, z, y) of this vector's components.
    pub fn xxzy(&self) -> (r: Float4<T>)
        ensures
            r == (Float4 { x: self.x, y: self.x, z: self.z, w: self.y }),
    {
        Float4 { x: self.x, y: self.x, z: self.z, w: self.y }
    }

    /// Returns the vector (x, x, z, z) of this vector's components.
    pub fn xxzz(&self) -> (r: Float4<T>)
        ensures
            r == (Float4 { x: self.x, y: self.x, z: self.z, w: self.z }),
    {
        Float4 { x: self.x, y: self.x, z: self.z, w: self.z }
    }

    /// Returns the vector (x, x, z, w) of this vector's components.
    pub fn xxzw(&self) -> (r: Float4<T>)
        ensures
            r == (Float4 { x: self.x, y: self.x, z: self.z, w: self.w }),
    {
        Float4 { x: self.x, y: self.x, z: self.z, w: self.w }
    }

    /// Returns the vector (x, x, w, x) of this vector's components.
    pub fn xxwx(&self) -> (r: Float4<T>)
        ensures
            r == (Float4 { x: self.x, y: self.x, z: self.w, w: self.x }),
    {
        Float4 { x: self.x, y: self.x, z: self.w, w: self.x }
    }

    /// Returns the vector (x, x, w, y) of this vector's components.
    pub fn xxwy(&self) -> (r: Float4<T>)
        ensures
            r == (Float4 { x: self.x, y: self.x, z: self.w, w: self.y }),
    {
        Float4 { x: self.x, y: self.x, z: self.w, w: self.y }
    }

    /// Returns the vector (x, x, w, z) of this vector's components.
    pub fn xxwz(&self) -> (r: Float4<T>)
        ensures
            r == (Float4 { x: self.x, y: self.x, z: self.w, w: self.z }),
    {
        Float4 { x: self.x, y: self.x, z: self.w, w: self.z }
    }

    /// Returns the vector (x, x, w, w) of this vector's components.
    pub fn xxww(&self) -> (r: Float4<T>)
        ensures
            r == (Float4 { x: self.x, y: self.x, z: self.w, w: self.w }),
    {
        Float4 { x: self.x, y: self.x, z: self.w, w: self.w }
    }

    /// Returns the vector (x, y, x, x) of this vector's components.
    pub fn xyxx(&self) -> (r: Float4<T>)
        ensures
            r == (Float4 { x: self.x, y: self.y, z: self.x, w: self.x }),
    {
        Float4 { x: self.x, y: self.y, z: self.x, w: self.x }
    }

    /// Returns the vector (x, y, x, y) of this vector's components.
    pub fn xyxy(&self) -> (r: Float4<T>)
        ensures
            r == (Float4 { x: self.x, y: self.y, z: self.x, w: self.y }),
    {
        Float4 { x: self.x, y: self.y, z: self.x, w: self.y }
    }

    /// Returns the vector (x, y, x, z) of this vector's components.
    pub fn xyxz(&self) -> (r: Float4<T>)
        ensures
            r == (Float4 { x: self.x, y: self.y, z: self.x, w: self.z }),
    {
        Float4 { x: self.x, y: self.y, z: self.x, w: self.z }
    }

    /// Returns the vector (x, y, x, w) of this vector's components.
    pub fn xyxw(&self) -> (r: Float4<T>)
        ensures
            r == (Float4 { x: self.x, y: self.y, z: self.x, w: self.w }),
    {
        Float4 { x: self.x, y: self.y, z: self.x, w: self.w }
    }

    /// Returns the vector (x, y, y, x) of this vector's components.
    pub fn xyyx(&self) -> (r: Float4<T>)
        ensures
            r == (Float4 { x: self.x, y: self.y, z: self.y, w: self.x }),
    {
        Float4 { x: self.x, y: self.y, z: self.y, w: self.x }
    }

    /// Returns the vector (x, y, y, y) of this vector's components.
    pub fn xyyy(&self) -> (r: Float4<T>)
        ensures
            r == (Float4 { x: self.x, y: self.y, z: self.y, w: self.y }),
    {
        Float4 { x: self.x, y: self.y, z: self.y, w: self.y }
    }

    /// Returns the vector (x, y, y, z) of this vector's components.
    pub fn xyyz(&self) -> (r: Float4<T>)
        ensures
            r == (Float4 { x: self.x, y: self.y, z: self.y, w: self.z }),
    {
        Float4 { x: self.x, y: self.y, z: self.y, w: self.z }
    }

    /// Returns the vector (x, y, y, w) of this vector's components.
    pub fn xyyw(&self) -> (r: Float4<T>)
        ensures
            r == (Float4 { x: self.x, y: self.y, z: self.y, w: self.w }),
    {
        Float4 { x: self.x, y: self.y, z: self.y, w: self.w }
    }

    /// Returns the vector (x, y, z, x) of this vector's components.
    pub fn xyzx(&self) -> (r: Float4<T>)
        ensures
            r == (Float4 { x: self.x, y: self.y, z: self.z, w: self.x }),
    {
        Float4 { x: self.x, y: self.y, z: self.z, w: self.x }
    }

    /// Returns the vector (x, y, z, y) of this vector's components.
    pub fn xyzy(&self) -> (r: Float4<T>)
        ensures
            r == (Float4 { x: self.x, y: self.y, z: self.z, w: self.y }),
    {
        Float4 { x: self.x, y: self.y, z: self.z, w: self.y }
    }

    /// Returns the vector (x, y, z, z) of this vector's components.
    pub fn xyzz(&self) -> (r: Float4<T>)
        ensures
            r == (Float4 { x: self.x, y: self.y, z: self.z, w: self.z }),
    {
        Float4 { x: self.x, y: self.y, z: self.z, w: self.z }
    }

    /// Returns the vector (x, y, z, w) of this vector's components.
    pub fn xyzw(&self) -> (r: Float4<T>)
        ensures
            r == (Float4 { x: self.x, y: self.y, z: self.z, w: self.w }),
    {
        Float4 { x: self.x, y: self.y, z: self.z, w: self.w }
    }

    /// Returns the vector (x, y, w, x) of this vector's components.
    pub fn xywx(&self) -> (r: Float4<T>)
        ensures
            r == (Float4 { x: self.x, y: self.y, z: self.w, w: self.x }),
    {
        Float4 { x: self.x, y: self.y, z: self.w, w: self.x }
    }

    /// Returns the vector (x, y, w, y) of this vector's components.
    pub fn xywy(&self) -> (r: Float4<T>)
        ensures
            r == (Float4 { x: self.x, y: self.y, z: self.w, w: self.y }),
    {
        Float4 { x: self.x, y: self.y, z: self.w, w: self.y }
    }

    /// Returns the vector (x, y, w, z) of this vector's components.
    pub fn xywz(&self) -> (r: Float4<T>)
        ensures
            r == (Float4 { x: self.x, y: self.y, z: self.w, w: self.z }),
    {
        Float4 { x: self.x, y: self.y, z: self.w, w: self.z }
    }

    /// Returns the vector (x, y, w, w) of this vector's components.
    pub fn xyww(&self) -> (r: Float4<T>)
        ensures
            r == (Float4 { x: self.x, y: self.y, z: self.w, w: self.w }),
    {
        Float4 { x: self.x, y: self.y, z: self.w, w: self.w }
    }

    /// Returns the vector (x, z, x, x) of this vector's components.
    pub fn xzxx(&self) -> (r: Float4<T>)
        ensures
            r == (Float4 { x: self.x, y: self.z, z: self.x, w: self.x }),
    {
        Float4 { x: self.x, y: self.z, z: self.x, w: self.x }
    }

    /// Returns the vector (x, z, x, y) of this vector's components.
    pub fn xzxy(&self) -> (r: Float4<T>)
        ensures
            r == (Float4 { x: self.x, y: self.z, z: self.x, w: self.y }),
    {
        Float4 { x: self.x, y: self.z, z: self.x, w: self.y }
    }

    /// Returns the vector (x, z, x, z) of this vector's components.
    pub fn xzxz(&self) -> (r: Float4<T>)
        ensures
            r == (Float4 { x: self.x, y: self.z, z: self.x, w: self.z }),
    {
        Float4 { x: self.x, y: self.z, z: self.x, w: self.z }
    }

    /// Returns the vector (x, z, x, w) of this vector's components.
    pub fn xzxw(&self) -> (r: Float4<T>)
        ensures
            r == (Float4 { x: self.x, y: self.z, z: self.x, w: self.w }),
    {
        Float4 { x: self.x, y: self.z, z: self.x, w: self.w }
    }

    /// Returns the vector (x, z, y, x) of this vector's components.
    pub fn xzyx(&self) -> (r: Float4<T>)
        ensures
            r == (Float4 { x: self.x, y: self.z, z: self.y, w: self.x }),
    {
        Float4 { x: self.x, y: self.z, z: self.y, w: self.x }
    }

    /// Returns the vector (x, z, y, y) of this vector's components.
    pub fn xzyy(&self) -> (r: Float4<T>)
        ensures
            r == (Float4 { x: self.x, y: self.z, z: self.y, w: self.y }),
    {
        Float4 { x: self.x, y: self.z, z: self.y, w: self.y }
    }

    /// Returns the vector (x, z, y, z) of this vector's components.
    pub fn xzyz(&self) -> (r: Float4<T>)
        ensures
            r == (Float4 { x: self.x, y: self.z, z: self.y, w: self.z }),
    {
        Float4 { x: self.x, y: self.z, z: self.y, w: self.z }
    }

    /// Returns the vector (x, z, y, w) of this vector's components.
    pub fn xzyw(&self) -> (r: Float4<T>)
        ensures
            r == (Float4 { x: self.x, y: self.z, z: self.y, w: self.w }),
    {
        Float4 { x: self.x, y: self.z, z: self.y, w: self.w }
    }

    /// Returns the vector (x, z, z, x) of this vector's components.
    pub fn xzzx(&self) -> (r: Float4<T>)
        ensures
            r == (Float4 { x: self.x, y: self.z, z: self.z, w: self.x }),
    {
        Float4 { x: self.x, y: self.z, z: self.z, w: self.x }
    }

    /// Returns the vector (x, z, z, y) of this vector's components.
    pub fn xzzy(&self) -> (r: Float4<T>)
        ensures
            r == (Float4 { x: self.x, y: self.z, z: self.z, w: self.y }),
    {
        Float4 { x: self.x, y: self.z, z: self.z, w: self.y }
    }

    /// Returns the vector (x, z, z, z) of this vector's components.
    pub fn xzzz(&self) -> (r: Float4<T>)
        ensures
            r == (Float4 { x: self.x, y: self.z, z: self.z, w: self.z }),
    {
        Float4 { x: self.x, y: self.z, z: self.z, w: self.z }
    }

    /// Returns the vector (x, z, z, w) of this vector's components.
    pub fn xzzw(&self) -> (r: Float4<T>)
        ensures
            r == (Float4 { x: self.x, y: self.z, z: self.z, w: self.w }),
    {
        Float4 { x: self.x, y: self.z, z: self.z, w: self.w }
    }

    /// Returns the vector (x, z, w, x) of this vector's components.
    pub fn xzwx(&self) -> (r: Float4<T>)
        ensures
            r == (Float4 { x: self.x, y: self.z, z: self.w, w: self.x }),
    {
        Float4 { x: self.x, y: self.z, z: self.w, w: self.x }
    }

    /// Returns the vector (x, z, w, y) of this vector's components.
    pub fn xzwy(&self) -> (r: Float4<T>)
        ensures
            r == (Float4 { x: self.x, y: self.z, z: self.w, w: self.y }),
    {
        Float4 { x: self.x, y: self.z, z: self.w, w: self.y }
    }

    /// Returns the vector (x, z, w, z) of this vector's components.
    pub fn xzwz(&self) -> (r: Float4<T>)
        ensures
            r == (Float4 { x: self.x, y: self.z, z: self.w, w: self.z }),
    {
        Float4 { x: self.x, y: self.z, z: self.w, w: self.z }
    }

    /// Returns the vector (x, z, w, w) of this vector's components.
    pub fn xzww(&self) -> (r: Float4<T>)
        ensures
            r == (Float4 { x: self.x, y: self.z, z: self.w, w: self.w }),
    {
        Float4 { x: self.x, y: self.z, z: self.w, w: self.w }
    }

    /// Returns the vector (x, w, x, x) of this vector's components.
    pub fn xwxx(&self) -> (r: Float4<T>)
        ensures
            r == (Float4 { x: self.x, y: self.w, z: self.x, w: self.x }),
    {
        Float4 { x: self.x, y: self.w, z: self.x, w: self.x }
    }

    /// Returns the vector (x, w, x, y) of this vector's components.
    pub fn xwxy(&self) -> (r: Float4<T>)
        ensures
            r == (Float4 { x: self.x, y: self.w, z: self.x, w: self.y }),
    {
        Float4 { x: self.x, y: self.w, z: self.x, w: self.y }
    }

    /// Returns the vector (x, w, x, z) of this vector's components.
    pub fn xwxz(&self) -> (r: Float4<T>)
        ensures
            r == (Float4 { x: self.x, y: self.w, z: self.x, w: self.z }),
    {
        Float4 { x: self.x, y: self.w, z: self.x, w: self.z }
    }

    /// Returns the vector (x, w, x, w) of this vector's components.
    pub fn xwxw(&self) -> (r: Float4<T>)
        ensures
            r == (Float4 { x: self.x, y: self.w, z: self.x, w: self.w }),
    {
        Float4 { x: self.x, y: self.w, z: self.x, w: self.w }
    }

    /// Returns the vector (x, w, y, x) of this vector's components.
    pub fn xwyx(&self) -> (r: Float4<T>)
        ensures
            r == (Float4 { x: self.x, y: self.w, z: self.y, w: self.x }),
    {
        Float4 { x: self.x, y: self.w, z: self.y, w: self.x }
    }

    /// Returns the vector (x, w, y, y) of this vector's components.
    pub fn xwyy(&self) -> (r: Float4<T>)
        ensures
            r == (Float4 { x: self.x, y: self.w, z: self.y, w: self.y }),
    {
        Float4 { x: self.x, y: self.w, z: self.y, w: self.y }
    }

    /// Returns the vector (x, w, y, z) of this vector's components.
    pub fn xwyz(&self) -> (r: Float4<T>)
        ensures
            r == (Float4 { x: self.x, y: self.w, z: self.y, w: self.z }),
    {
        Float4 { x: self.x, y: self.w, z: self.y, w: self.z }
    }

    /// Returns the vector (x, w, y, w) of this vector's components.
    pub fn xwyw(&self) -> (r: Float4<T>)
        ensures
            r == (Float4 { x: self.x, y: self.w, z: self.y, w: self.w }),
    {
        Float4 { x: self.x, y: self.w, z: self.y, w: self.w }
    }

    /// Returns the vector (x, w, z, x) of this vector's components.
    pub fn xwzx(&self) -> (r: Float4<T>)
        ensures
            r == (Float4 { x: self.x, y: self.w, z: self.z, w: self.x }),
    {
        Float4 { x: self.x, y: self.w, z: self.z, w: self.x }
    }

    /// Returns the vector (x, w, z, y) of this vector's components.
    pub fn xwzy(&self) -> (r: Float4<T>)
        ensures
            r == (Float4 { x: self.x, y: self.w, z: self.z, w: self.y }),
    {
        Float4 { x: self.x, y: self.w, z: self.z, w: self.y }
    }

    /// Returns the vector (x, w, z, z) of this vector's components.
    pub fn xwzz(&self) -> (r: Float4<T>)
        ensures
            r == (Float4 { x: self.x, y: self.w, z: self.z, w: self.z }),
    {
        Float4 { x: self.x, y: self.w, z: self.z, w: self.z }
    }

    /// Returns the vector (x, w, z, w) of this vector's components.
    pub fn xwzw(&self) -> (r: Float4<T>)
        ensures
            r == (Float4 { x: self.x, y: self.w, z: self.z, w: self.w }),
    {
        Float4 { x: self.x, y: self.w, z: self.z, w: self.w }
    }

    /// Returns the vector (x, w, w, x) of this vector's components.
    pub fn xwwx(&self) -> (r: Float4<T>)
        ensures
            r == (Float4 { x: self.x, y: self.w, z: self.w, w: self.x }),
    {
        Float4 { x: self.x, y: self.w, z: self.w, w: self.x }
    }

    /// Returns the vector (x, w, w, y) of this vector's components.
    pub fn xwwy(&self) -> (r: Float4<T>)
        ensures
            r == (Float4 { x: self.x, y: self.w, z: self.w, w: self.y }),
    {
        Float4 { x: self.x, y: self.w, z: self.w, w: self.y }
    }

    /// Returns the vector (x, w, w, z) of this vector's components.
    pub fn xwwz(&self) -> (r: Float4<T>)
        ensures
            r == (Float4 { x: self.x, y: self.w, z: self.w, w: self.z }),
    {
        Float4 { x: self.x, y: self.w, z: self.w, w: self.z }
    }

    /// Returns the vector (x, w, w, w) of this vector's components.
    pub fn xwww(&self) -> (r: Float4<T>)
        ensures
            r == (Float4 { x: self.x, y: self.w, z: self.w, w: self.w }),
    {
        Float4 { x: self.x, y: self.w, z: self.w, w: self.w }
    }

    /// Returns the vector (y, x, x, x) of this vector's components.
    pub fn yxxx(&self) -> (r: Float4<T>)
        ensures
            r == (Float4 { x: self.y, y: self.x, z: self.x, w: self.x }),
    {
        Float4 { x: self.y, y: self.x, z: self.x, w: self.x }
    }

    /// Returns the vector (y, x, x, y) of this vector's components.
    pub fn yxxy(&self) -> (r: Float4<T>)
        ensures
            r == (Float4 { x: self.y, y: self.x, z: self.x, w: self.y }),
    {
        Float4 { x: self.y, y: self.x, z: self.x, w: self.y }
    }

    /// Returns the vector (y, x, x, z) of this vector's components.
    pub fn yxxz(&self) -> (r: Float4<T>)
        ensures
            r == (Float4 { x: self.y, y: self.x, z: self.x, w: self.z }),
    {
        Float4 { x: self.y, y: self.x, z: self.x, w: self.z }
    }

    /// Returns the vector (y, x, x, w) of this vector's components.
    pub fn yxxw(&self) -> (r: Float4<T>)
        ensures
            r == (Float4 { x: self.y, y: self.x, z: self.x, w: self.w }),
    {
        Float4 { x: self.y, y: self.x, z: self.x, w: self.w }
    }

    /// Returns the vector (y, x, y, x) of this vector's components.
    pub fn yxyx(&self) -> (r: Float4<T>)
        ensures
            r == (Float4 { x: self.y, y: self.x, z: self.y, w: self.x }),
    {
        Float4 { x: self.y, y: self.x, z: self.y, w: self.x }
    }

    /// Returns the vector (y, x, y, y) of this vector's components.
    pub fn yxyy(&self) -> (r: Float4<T>)
        ensures
            r == (Float4 { x: self.y, y: self.x, z: self.y, w: self.y }),
    {
        Float4 { x: self.y, y: self.x, z: self.y, w: self.y }
    }

    /// Returns the vector (y, x, y, z) of this vector's components.
    pub fn yxyz(&self) -> (r: Float4<T>)
        ensures
            r == (Float4 { x: self.y, y: self.x, z: self.y, w: self.z }),
    {
        Float4 { x: self.y, y: self.x, z: self.y, w: self.z }
    }

    /// Returns the vector (y, x, y, w) of this vector's components.
    pub fn yxyw(&self) -> (r: Float4<T>)
        ensures
            r == (Float4 { x: self.y, y: self.x, z: self.y, w: self.w }),
    {
        Float4 { x: self.y, y: self.x, z: self.y, w: self.w }
    }

    /// Returns the vector (y, x, z, x) of this vector's components.
    pub fn yxzx(&self) -> (r: Float4<T>)
        ensures
            r == (Float4 { x: self.y, y: self.x, z: self.z, w: self.x }),
    {
        Float4 { x: self.y, y: self.x, z: self.z, w: self.x }
    }

    /// Returns the vector (y, x, z, y) of this vector's components.
    pub fn yxzy(&self) -> (r: Float4<T>)
        ensures
            r == (Float4 { x: self.y, y: self.x, z: self.z, w: self.y }),
    {
        Float4 { x: self.y, y: self.x, z: self.z, w: self.y }
    }

    /// Returns the vector (y, x, z, z) of this vector's components.
    pub fn yxzz(&self) -> (r: Float4<T>)
        ensures
            r == (Float4 { x: self.y, y: self.x, z: self.z, w: self.z }),
    {
        Float4 { x: self.y, y: self.x, z: self.z, w: self.z }
    }

    /// Returns the vector (y, x, z, w) of this vector's components.
    pub fn yxzw(&self) -> (r: Float4<T>)
        ensures
            r == (Float4 { x: self.y, y: self.x, z: self.z, w: self.w }),
    {
        Float4 { x: self.y, y: self.x, z: self.z, w: self.w }
    }

    /// Returns the vector (y, x, w, x) of this vector's components.
    pub fn yxwx(&self) -> (r: Float4<T>)
        ensures
            r == (Float4 { x: self.y, y: self.x, z: self.w, w: self.x }),
    {
        Float4 { x: self.y, y: self.x, z: self.w, w: self.x }
    }

    /// Returns the vector (y, x, w, y) of this vector's components.
    pub fn yxwy(&self) -> (r: Float4<T>)
        ensures
            r == (Float4 { x: self.y, y: self.x, z: self.w, w: self.y }),
    {
        Float4 { x: self.y, y: self.x, z: self.w, w: self.y }
    }

    /// Returns the vector (y, x, w, z) of this vector's components.
    pub fn yxwz(&self) -> (r: Float4<T>)
        ensures
            r == (Float4 { x: self.y, y: self.x, z: self.w, w: self.z }),
    {
        Float4 { x: self.y, y: self.x, z: self.w, w: self.z }
    }

    /// Returns the vector (y, x, w, w) of this vector's components.
    pub fn yxww(&self) -> (r: Float4<T>)
        ensures
            r == (Float4 { x: self.y, y: self.x, z: self.w, w: self.w }),
    {
        Float4 { x: self.y, y: self.x, z: self.w, w: self.w }
    }

    /// Returns the vector (y, y, x, x) of this vector's components.
    pub fn yyxx(&self) -> (r: Float4<T>)
        ensures
            r == (Float4 { x: self.y, y: self.y, z: self.x, w: self.x }),
    {
        Float4 { x: self.y, y: self.y, z: self.x, w: self.x }
    }

    /// Returns the vector (y, y, x, y) of this vector's components.
    pub fn yyxy(&self) -> (r: Float4<T>)
        ensures
            r == (Float4 { x: self.y, y: self.y, z: self.x, w: self.y }),
    {
        Float4 { x: self.y, y: self.y, z: self.x, w: self.y }
    }

    /// Returns the vector (y, y, x, z) of this vector's components.
    pub fn yyxz(&self) -> (r: Float4<T>)
        ensures
            r == (Float4 { x: self.y, y: self.y, z: self.x, w: self.z }),
    {
        Float4 { x: self.y, y: self.y, z: self.x, w: self.z }
    }

    /// Returns the vector (y, y, x, w) of this vector's components.
    pub fn yyxw(&self) -> (r: Float4<T>)
        ensures
            r == (Float4 { x: self.y, y: self.y, z: self.x, w: self.w }),
    {
        Float4 { x: self.y, y: self.y, z: self.x, w: self.w }
    }

    /// Returns the vector (y, y, y, x) of this vector's components.
    pub fn yyyx(&self) -> (r: Float4<T>)
        ensures
            r == (Float4 { x: self.y, y: self.y, z: self.y, w: self.x }),
    {
        Float4 { x: self.y, y: self.y, z: self.y, w: self.x }
    }

    /// Returns the vector (y, y, y, y) of this vector's components.
    pub fn yyyy(&self) -> (r: Float4<T>)
        ensures
            r == (Float4 { x: self.y, y: self.y, z: self.y, w: self.y }),
    {
        Float4 { x: self.y, y: self.y, z: self.y, w: self.y }
    }

    /// Returns the vector (y, y, y, z) of this vector's components.
    pub fn yyyz(&self) -> (r: Float4<T>)
        ensures
            r == (Float4 { x: self.y, y: self.y, z: self.y, w: self.z }),
    {
        Float4 { x: self.y, y: self.y, z: self.y, w: self.z }
    }

    /// Returns the vector (y, y, y, w) of this vector's components.
    pub fn yyyw(&self) -> (r: Float4<T>)
        ensures
            r == (Float4 { x: self.y, y: self.y, z: self.y, w: self.w }),
    {
        Float4 { x: self.y, y: self.y, z: self.y, w: self.w }
    }

    /// Returns the vector (y, y, z, x) of this vector's components.
    pub fn yyzx(&self) -> (r: Float4<T>)
        ensures
            r == (Float4 { x: self.y, y: self.y, z: self.z, w: self.x }),
    {
        Float4 { x: self.y, y: self.y, z: self.z, w: self.x }
    }

    /// Returns the vector (y, y, z, y) of this vector's components.
    pub fn yyzy(&self) -> (r: Float4<T>)
        ensures
            r == (Float4 { x: self.y, y: self.y, z: self.z, w: self.y }),
    {
        Float4 { x: self.y, y: self.y, z: self.z, w: self.y }
    }

    /// Returns the vector (y, y, z, z) of this vector's components.
    pub fn yyzz(&self) -> (r: Float4<T>)
        ensures
            r == (Float4 { x: self.y, y: self.y, z: self.z, w: self.z }),
    {
        Float4 { x: self.y, y: self.y, z: self.z, w: self.z }
    }

    /// Returns the vector (y, y, z, w) of this vector's components.
    pub fn yyzw(&self) -> (r: Float4<T>)
        ensures
            r == (Float4 { x: self.y, y: self.y, z: self.z, w: self.w }),
    {
        Float4 { x: self.y, y: self.y, z: self.z, w: self.w }
    }

    /// Returns the vector (y, y, w, x) of this vector's components.
    pub fn yywx(&self) -> (r: Float4<T>)
        ensures
            r == (Float4 { x: self.y, y: self.y, z: self.w, w: self.x }),
    {
        Float4 { x: self.y, y: self.y, z: self.w, w: self.x }
    }

    /// Returns the vector (y, y, w, y) of this vector's components.
    pub fn yywy(&self) -> (r: Float4<T>)
        ensures
            r == (Float4 { x: self.y, y: self.y, z: self.w, w: self.y }),
    {
        Float4 { x: self.y, y: self.y, z: self.w, w: self.y }
    }

    /// Returns the vector (y, y, w, z) of this vector's components.
    pub fn yywz(&self) -> (r: Float4<T>)
        ensures
            r == (Float4 { x: self.y, y: self.y, z: self.w, w: self.z }),
    {
        Float4 { x: self.y, y: self.y, z: self.w, w: self.z }
    }

    /// Returns the vector (y, y, w, w) of this vector's components.
    pub fn yyww(&self) -> (r: Float4<T>)
        ensures
            r == (Float4 { x: self.y, y: self.y, z: self.w, w: self.w }),
    {
        Float4 { x: self.y, y: self.y, z: self.w, w: self.w }
    }

    /// Returns the vector (y, z, x, x) of this vector's components.
    pub fn yzxx(&self) -> (r: Float4<T>)
        ensures
            r == (Float4 { x: self.y, y: self.z, z: self.x, w: self.x }),
    {
        Float4 { x: self.y, y: self.z, z: self.x, w: self.x }
    }

    /// Returns the vector (y, z, x, y) of this vector's components.
    pub fn yzxy(&self) -> (r: Float4<T>)
        ensures
            r == (Float4 { x: self.y, y: self.z, z: self.x, w: self.y }),
    {
        Float4 { x: self.y, y: self.z, z: self.x, w: self.y }
    }

    /// Returns the vector (y, z, x, z) of this vector's components.
    pub fn yzxz(&self) -> (r: Float4<T>)
        ensures
            r == (Float4 { x: self.y, y: self.z, z: self.x, w: self.z }),
    {
        Float4 { x: self.y, y: self.z, z: self.x, w: self.z }
    }

    /// Returns the vector (y, z, x, w) of this vector's components.
    pub fn yzxw(&self) -> (r: Float4<T>)
        ensures
            r == (Float4 { x: self.y, y: self.z, z: self.x, w: self.w }),
    {
        Float4 { x: self.y, y: self.z, z: self.x, w: self.w }
    }

    /// Returns the vector (y, z, y, x) of this vector's components.
    pub fn yzyx(&self) -> (r: Float4<T>)
        ensures
            r == (Float4 { x: self.y, y: self.z, z: self.y, w: self.x }),
    {
        Float4 { x: self.y, y: self.z, z: self.y, w: self.x }
    }

    /// Returns the vector (y, z, y, y) of this vector's components.
    pub fn yzyy(&self) -> (r: Float4<T>)
        ensures
            r == (Float4 { x: self.y, y: self.z, z: self.y, w: self.y }),
    {
        Float4 { x: self.y, y: self.z, z: self.y, w: self.y }
    }

    /// Returns the vector (y, z, y, z) of this vector's components.
    pub fn yzyz(&self) -> (r: Float4<T>)
        ensures
            r == (Float4 { x: self.y, y: self.z, z: self.y, w: self.z }),
    {
        Float4 { x: self.y, y: self.z, z: self.y, w: self.z }
    }

    /// Returns the vector (y, z, y, w) of this vector's components.
    pub fn yzyw(&self) -> (r: Float4<T>)
        ensures
            r == (Float4 { x: self.y, y: self.z, z: self.y, w: self.w }),
    {
        Float4 { x: self.y, y: self.z, z: self.y, w: self.w }
    }

    /// Returns the vector (y, z, z, x) of this vector's components.
    pub fn yzzx(&self) -> (r: Float4<T>)
        ensures
            r == (Float4 { x: self.y, y: self.z, z: self.z, w: self.x }),
    {
        Float4 { x: self.y, y: self.z, z: self.z, w: self.x }
    }

    /// Returns the vector (y, z, z, y) of this vector's components.
    pub fn yzzy(&self) -> (r: Float4<T>)
        ensures
            r == (Float4 { x: self.y, y: self.z, z: self.z, w: self.y }),
    {
        Float4 { x: self.y, y: self.z, z: self.z, w: self.y }
    }

    /// Returns the vector (y, z, z, z) of this vector's components.
    pub fn yzzz(&self) -> (r: Float4<T>)
        ensures
            r == (Float4 { x: self.y, y: self.z, z: self.z, w: self.z }),
    {
        Float4 { x: self.y, y: self.z, z: self.z, w: self.z }
    }

    /// Returns the vector (y, z, z, w) of this vector's components.
    pub fn yzzw(&self) -> (r: Float4<T>)
        ensures
            r == (Float4 { x: self.y, y: self.z, z: self.z, w: self.w }),
    {
        Float4 { x: self.y, y: self.z, z: self.z, w: self.w }
    }

    /// Returns the vector (y, z, w, x) of this vector's components.
    pub fn yzwx(&self) -> (r: Float4<T>)
        ensures
            r == (Float4 { x: self.y, y: self.z, z: self.w, w: self.x }),
    {
        Float4 { x: self.y, y: self.z, z: self.w, w: self.x }
    }

    /// Returns the vector (y, z, w, y) of this vector's components.
    pub fn yzwy(&self) -> (r: Float4<T>)
        ensures
            r == (Float4 { x: self.y, y: self.z, z: self.w, w: self.y }),
    {
        Float4 { x: self.y, y: self.z, z: self.w, w: self.y }
    }

    /// Returns the vector (y, z, w, z) of this vector's components.
    pub fn yzwz(&self) -> (r: Float4<T>)
        ensures
            r == (Float4 { x: self.y, y: self.z, z: self.w, w: self.z }),
    {
        Float4 { x: self.y, y: self.z, z: self.w, w: self.z }
    }

    /// Returns the vector (y, z, w, w) of this vector's components.
    pub fn yzww(&self) -> (r: Float4<T>)
        ensures
            r == (Float4 { x: self.y, y: self.z, z: self.w, w: self.w }),
    {
        Float4 { x: self.y, y: self.z, z: self.w, w: self.w }
    }

    /// Returns the vector (y, w, x, x) of this vector's components.
    pub fn ywxx(&self) -> (r: Float4<T>)
        ensures
            r == (Float4 { x: self.y, y: self.w, z: self.x, w: self.x }),
    {
        Float4 { x: self.y, y: self.w, z: self.x, w: self.x }
    }

    /// Returns the vector (y, w, x, y) of this vector's components.
    pub fn ywxy(&self) -> (r: Float4<T>)
        ensures
            r == (Float4 { x: self.y, y: self.w, z: self.x, w: self.y }),
    {
        Float4 { x: self.y, y: self.w, z: self.x, w: self.y }
    }

    /// Returns the vector (y, w, x, z) of this vector's components.
    pub fn ywxz(&self) -> (r: Float4<T>)
        ensures
            r == (Float4 { x: self.y, y: self.w, z: self.x, w: self.z }),
    {
        Float4 { x: self.y, y: self.w, z: self.x, w: self.z }
    }

    /// Returns the vector (y, w, x, w) of this vector's components.
    pub fn ywxw(&self) -> (r: Float4<T>)
        ensures
            r == (Float4 { x: self.y, y: self.w, z: self.x, w: self.w }),
    {
        Float4 { x: self.y, y: self.w, z: self.x, w: self.w }
    }

    /// Returns the vector (y, w, y, x) of this vector's components.
    pub fn ywyx(&self) -> (r: Float4<T>)
        ensures
            r == (Float4 { x: self.y, y: self.w, z: self.y, w: self.x }),
    {
        Float4 { x: self.y, y: self.w, z: self.y, w: self.x }
    }

    /// Returns the vector (y, w, y, y) of this vector's components.
    pub fn ywyy(&self) -> (r: Float4<T>)
        ensures
            r == (Float4 { x: self.y, y: self.w, z: self.y, w: self.y }),
    {
        Float4 { x: self.y, y: self.w, z: self.y, w: self.y }
    }

    /// Returns the vector (y, w, y, z) of this vector's components.
    pub fn ywyz(&self) -> (r: Float4<T>)
        ensures
            r == (Float4 { x: self.y, y: self.w, z: self.y, w: self.z }),
    {
        Float4 { x: self.y, y: self.w, z: self.y, w: self.z }
    }

    /// Returns the vector (y, w, y, w) of this vector's components.
    pub fn ywyw(&self) -> (r: Float4<T>)
        ensures
            r == (Float4 { x: self.y, y: self.w, z: self.y, w: self.w }),
    {
        Float4 { x: self.y, y: self.w, z: self.y, w: self.w }
    }

    /// Returns the vector (y, w, z, x) of this vector's components.
    pub fn ywzx(&self) -> (r: Float4<T>)
        ensures
            r == (Float4 { x: self.y, y: self.w, z: self.z, w: self.x }),
    {
        Float4 { x: self.y, y: self.w, z: self.z, w: self.x }
    }

    /// Returns the vector (y, w, z, y) of this vector's components.
    pub fn ywzy(&self) -> (r: Float4<T>)
        ensures
            r == (Float4 { x: self.y, y: self.w, z: self.z, w: self.y }),
    {
        Float4 { x: self.y, y: self.w, z: self.z, w: self.y }
    }

    /// Returns the vector (y, w, z, z) of this vector's components.
    pub fn ywzz(&self) -> (r: Float4<T>)
        ensures
            r == (Float4 { x: self.y, y: self.w, z: self.z, w: self.z }),
    {
        Float4 { x: self.y, y: self.w, z: self.z, w: self.z }
    }

    /// Returns the vector (y, w, z, w) of this vector's components.
    pub fn ywzw(&self) -> (r: Float4<T>)
        ensures
            r == (Float4 { x: self.y, y: self.w, z: self.z, w: self.w }),
    {
        Float4 { x: self.y, y: self.w, z: self.z, w: self.w }
    }

    /// Returns the vector (y, w, w, x) of this vector's components.
    pub fn ywwx(&self) -> (r: Float4<T>)
        ensures
            r == (Float4 { x: self.y, y: self.w, z: self.w, w: self.x }),
    {
        Float4 { x: self.y, y: self.w, z: self.w, w: self.x }
    }

    /// Returns the vector (y, w, w, y) of this vector's components.
    pub fn ywwy(&self) -> (r: Float4<T>)
        ensures
            r == (Float4 { x: self.y, y: self.w, z: self.w, w: self.y }),
    {
        Float4 { x: self.y, y: self.w, z: self.w, w: self.y }
    }

    /// Returns the vector (y, w, w, z) of this vector's components.
    pub fn ywwz(&self) -> (r: Float4<T>)
        ensures
            r == (Float4 { x: self.y, y: self.w, z: self.w, w: self.z }),
    {
        Float4 { x: self.y, y: self.w, z: self.w, w: self.z }
    }

    /// Returns the vector (y, w, w, w) of this vector's components.
    pub fn ywww(&self) -> (r: Float4<T>)
        ensures
            r == (Float4 { x: self.y, y: self.w, z: self.w, w: self.w }),
    {
        Float4 { x: self.y, y: self.w, z: self.w, w: self.w }
    }

    /// Returns the vector (z, x, x, x) of this vector's components.
    pub fn zxxx(&self) -> (r: Float4<T>)
        ensures
            r == (Float4 { x: self.z, y: self.x, z: self.x, w: self.x }),
    {
        Float4 { x: self.z, y: self.x, z: self.x, w: self.x }
    }

    /// Returns the vector (z, x, x, y) of this vector's components.
    pub fn zxxy(&self) -> (r: Float4<T>)
        ensures
            r == (Float4 { x: self.z, y: self.x, z: self.x, w: self.y }),
    {
        Float4 { x: self.z, y: self.x, z: self.x, w: self.y }
    }

    /// Returns the vector (z, x, x, z) of this vector's components.
    pub fn zxxz(&self) -> (r: Float4<T>)
        ensures
            r == (Float4 { x: self.z, y: self.x, z: self.x, w: self.z }),
    {
        Float4 { x: self.z, y: self.x, z: self.x, w: self.z }
    }

    /// Returns the vector (z, x, x, w) of this vector's components.
    pub fn zxxw(&self) -> (r: Float4<T>)
        ensures
            r == (Float4 { x: self.z, y: self.x, z: self.x, w: self.w }),
    {
        Float4 { x: self.z, y: self.x, z: self.x, w: self.w }
    }

    /// Returns the vector (z, x, y, x) of this vector's components.
    pub fn zxyx(&self) -> (r: Float4<T>)
        ensures
            r == (Float4 { x: self.z, y: self.x, z: self.y, w: self.x }),
    {
        Float4 { x: self.z, y: self.x, z: self.y, w: self.x }
    }

    /// Returns the vector (z, x, y, y) of this vector's components.
    pub fn zxyy(&self) -> (r: Float4<T>)
        ensures
            r == (Float4 { x: self.z, y: self.x, z: self.y, w: self.y }),
    {
        Float4 { x: self.z, y: self.x, z: self.y, w: self.y }
    }

    /// Returns the vector (z, x, y, z) of this vector's components.
    pub fn zxyz(&self) -> (r: Float4<T>)
        ensures
            r == (Float4 { x: self.z, y: self.x, z: self.y, w: self.z }),
    {
        Float4 { x: self.z, y: self.x, z: self.y, w: self.z }
    }

    /// Returns the vector (z, x, y, w) of this vector's components.
    pub fn zxyw(&self) -> (r: Float4<T>)
        ensures
            r == (Float4 { x: self.z, y: self.x, z: self.y, w: self.w }),
    {
        Float4 { x: self.z, y: self.x, z: self.y, w: self.w }
    }

    /// Returns the vector (z, x, z, x) of this vector's components.
    pub fn zxzx(&self) -> (r: Float4<T>)
        ensures
            r == (Float4 { x: self.z, y: self.x, z: self.z, w: self.x }),
    {
        Float4 { x: self.z, y: self.x, z: self.z, w: self.x }
    }

    /// Returns the vector (z, x, z, y) of this vector's components.
    pub fn zxzy(&self) -> (r: Float4<T>)
        ensures
            r == (Float4 { x: self.z, y: self.x, z: self.z, w: self.y }),
    {
        Float4 { x: self.z, y: self.x, z: self.z, w: self.y }
    }

    /// Returns the vector (z, x, z, z) of this vector's components.
    pub fn zxzz(&self) -> (r: Float4<T>)
        ensures
            r == (Float4 { x: self.z, y: self.x, z: self.z, w: self.z }),
    {
        Float4 { x: self.z, y: self.x, z: self.z, w: self.z }
    }

    /// Returns the vector (z, x, z, w) of this vector's components.
    pub fn zxzw(&self) -> (r: Float4<T>)
        ensures
            r == (Float4 { x: self.z, y: self.x, z: self.z, w: self.w }),
    {
        Float4 { x: self.z, y: self.x, z: self.z, w: self.w }
    }

    /// Returns the vector (z, x, w, x) of this vector's components.
    pub fn zxwx(&self) -> (r: Float4<T>)
        ensures
            r == (Float4 { x: self.z, y: self.x, z: self.w, w: self.x }),
    {
        Float4 { x: self.z, y: self.x, z: self.w, w: self.x }
    }

    /// Returns the vector (z, x, w, y) of this vector's components.
    pub fn zxwy(&self) -> (r: Float4<T>)
        ensures
            r == (Float4 { x: self.z, y: self.x, z: self.w, w: self.y }),
    {
        Float4 { x: self.z, y: self.x, z: self.w, w: self.y }
    }

    /// Returns the vector (z, x, w, z) of this vector's components.
    pub fn zxwz(&self) -> (r: Float4<T>)
        ensures
            r == (Float4 { x: self.z, y: self.x, z: self.w, w: self.z }),
    {
        Float4 { x: self.z, y: self.x, z: self.w, w: self.z }
    }

    /// Returns the vector (z, x, w, w) of this vector's components.
    pub fn zxww(&self) -> (r: Float4<T>)
        ensures
            r == (Float4 { x: self.z, y: self.x, z: self.w, w: self.w }),
    {
        Float4 { x: self.z, y: self.x, z: self.w, w: self.w }
    }

    /// Returns the vector (z, y, x, x) of this vector's components.
    pub fn zyxx(&self) -> (r: Float4<T>)
        ensures
            r == (Float4 { x: self.z, y: self.y, z: self.x, w: self.x }),
    {
        Float4 { x: self.z, y: self.y, z: self.x, w: self.x }
    }

    /// Returns the vector (z, y, x, y) of this vector's components.
    pub fn zyxy(&self) -> (r: Float4<T>)
        ensures
            r == (Float4 { x: self.z, y: self.y, z: self.x, w: self.y }),
    {
        Float4 { x: self.z, y: self.y, z: self.x, w: self.y }
    }

    /// Returns the vector (z, y, x, z) of this vector's components.
    pub fn zyxz(&self) -> (r: Float4<T>)
        ensures
            r == (Float4 { x: self.z, y: self.y, z: self.x, w: self.z }),
    {
        Float4 { x: self.z, y: self.y, z: self.x, w: self.z }
    }

    /// Returns the vector (z, y, x, w) of this vector's components.
    pub fn zyxw(&self) -> (r: Float4<T>)
        ensures
            r == (Float4 { x: self.z, y: self.y, z: self.x, w: self.w }),
    {
        Float4 { x: self.z, y: self.y, z: self.x, w: self.w }
    }

    /// Returns the vector (z, y, y, x) of this vector's components.
    pub fn zyyx(&self) -> (r: Float4<T>)
        ensures
            r == (Float4 { x: self.z, y: self.y, z: self.y, w: self.x }),
    {
        Float4 { x: self.z, y: self.y, z: self.y, w: self.x }
    }

    /// Returns the vector (z, y, y, y) of this vector's components.
    pub fn zyyy(&self) -> (r: Float4<T>)
        ensures
            r == (Float4 { x: self.z, y: self.y, z: self.y, w: self.y }),
    {
        Float4 { x: self.z, y: self.y, z: self.y, w: self.y }
    }

    /// Returns the vector (z, y, y, z) of this vector's components.
    pub fn zyyz(&self) -> (r: Float4<T>)
        ensures
            r == (Float4 { x: self.z, y: self.y, z: self.y, w: self.z }),
    {
        Float4 { x: self.z, y: self.y, z: self.y, w: self.z }
    }

    /// Returns the vector (z, y, y, w) of this vector's components.
    pub fn zyyw(&self) -> (r: Float4<T>)
        ensures
            r == (Float4 { x: self.z, y: self.y, z: self.y, w: self.w }),
    {
        Float4 { x: self.z, y: self.y, z: self.y, w: self.w }
    }

    /// Returns the vector (z, y, z, x) of this vector's components.
    pub fn zyzx(&self) -> (r: Float4<T>)
        ensures
            r == (Float4 { x: self.z, y: self.y, z: self.z, w: self.x }),
    {
        Float4 { x: self.z, y: self.y, z: self.z, w: self.x }
    }

    /// Returns the vector (z, y, z, y) of this vector's components.
    pub fn zyzy(&self) -> (r: Float4<T>)
        ensures
            r == (Float4 { x: self.z, y: self.y, z: self.z, w: self.y }),
    {
        Float4 { x: self.z, y: self.y, z: self.z, w: self.y }
    }

    /// Returns the vector (z, y, z, z) of this vector's components.
    pub fn zyzz(&self) -> (r: Float4<T>)
        ensures
            r == (Float4 { x: self.z, y: self.y, z: self.z, w: self.z }),
    {
        Float4 { x: self.z, y: self.y, z: self.z, w: self.z }
    }

    /// Returns the vector (z, y, z, w) of this vector's components.
    pub fn zyzw(&self) -> (r: Float4<T>)
        ensures
            r == (Float4 { x: self.z, y: self.y, z: self.z, w: self.w }),
    {
        Float4 { x: self.z, y: self.y, z: self.z, w: self.w }
    }

    /// Returns the vector (z, y, w, x) of this vector's components.
    pub fn zywx(&self) -> (r: Float4<T>)
        ensures
            r == (Float4 { x: self.z, y: self.y, z: self.w, w: self.x }),
    {
        Float4 { x: self.z, y: self.y, z: self.w, w: self.x }
    }

    /// Returns the vector (z, y, w, y) of this vector's components.
    pub fn zywy(&self) -> (r: Float4<T>)
        ensures
            r == (Float4 { x: self.z, y: self.y, z: self.w, w: self.y }),
    {
        Float4 { x: self.z, y: self.y, z: self.w, w: self.y }
    }

    /// Returns the vector (z, y, w, z) of this vector's components.
    pub fn zywz(&self) -> (r: Float4<T>)
        ensures
            r == (Float4 { x: self.z, y: self.y, z: self.w, w: self.z }),
    {
        Float4 { x: self.z, y: self.y, z: self.w, w: self.z }
    }

    /// Returns the vector (z, y, w, w) of this vector's components.
    pub fn zyww(&self) -> (r: Float4<T>)
        ensures
            r == (Float4 { x: self.z, y: self.y, z: self.w, w: self.w }),
    {
        Float4 { x: self.z, y: self.y, z: self.w, w: self.w }
    }

    /// Returns the vector (z, z, x, x) of this vector's components.
    pub fn zzxx(&self) -> (r: Float4<T>)
        ensures
            r == (Float4 { x: self.z, y: self.z, z: self.x, w: self.x }),
    {
        Float4 { x: self.z, y: self.z, z: self.x, w: self.x }
    }

    /// Returns the vector (z, z, x, y) of this vector's components.
    pub fn zzxy(&self) -> (r: Float4<T>)
        ensures
            r == (Float4 { x: self.z, y: self.z, z: self.x, w: self.y }),
    {
        Float4 { x: self.z, y: self.z, z: self.x, w: self.y }
    }

    /// Returns the vector (z, z, x, z) of this vector's components.
    pub fn zzxz(&self) -> (r: Float4<T>)
        ensures
            r == (Float4 { x: self.z, y: self.z, z: self.x, w: self.z }),
    {
        Float4 { x: self.z, y: self.z, z: self.x, w: self.z }
    }

    /// Returns the vector (z, z, x, w) of this vector's components.
    pub fn zzxw(&self) -> (r: Float4<T>)
        ensures
            r == (Float4 { x: self.z, y: self.z, z: self.x, w: self.w }),
    {
        Float4 { x: self.z, y: self.z, z: self.x, w: self.w }
    }

    /// Returns the vector (z, z, y, x) of this vector's components.
    pub fn zzyx(&self) -> (r: Float4<T>)
        ensures
            r == (Float4 { x: self.z, y: self.z, z: self.y, w: self.x }),
    {
        Float4 { x: self.z, y: self.z, z: self.y, w: self.x }
    }

    /// Returns the vector (z, z, y, y) of this vector's components.
    pub fn zzyy(&self) -> (r: Float4<T>)
        ensures
            r == (Float4 { x: self.z, y: self.z, z: self.y, w: self.y }),
    {
        Float4 { x: self.z, y: self.z, z: self.y, w: self.y }
    }

    /// Returns the vector (z, z, y, z) of this vector's components.
    pub fn zzyz(&self) -> (r: Float4<T>)
        ensures
            r == (Float4 { x: self.z, y: self.z, z: self.y, w: self.z }),
    {
        Float4 { x: self.z, y: self.z, z: self.y, w: self.z }
    }

    /// Returns the vector (z, z, y, w) of this vector's components.
    pub fn zzyw(&self) -> (r: Float4<T>)
        ensures
            r == (Float4 { x: self.z, y: self.z, z: self.y, w: self.w }),
    {
        Float4 { x: self.z, y: self.z, z: self.y, w: self.w }
    }

    /// Returns the vector (z, z, z, x) of this vector's components.
    pub fn zzzx(&self) -> (r: Float4<T>)
        ensures
            r == (Float4 { x: self.z, y: self.z, z: self.z, w: self.x }),
    {
        Float4 { x: self.z, y: self.z, z: self.z, w: self.x }
    }

    /// Returns the vector (z, z, z, y) of this vector's components.
    pub fn zzzy(&self) -> (r: Float4<T>)
        ensures
            r == (Float4 { x: self.z, y: self.z, z: self.z, w: self.y }),
    {
        Float4 { x: self.z, y: self.z, z: self.z, w: self.y }
    }

    /// Returns the vector (z, z, z, z) of this vector's components.
    pub fn zzzz(&self) -> (r: Float4<T>)
        ensures
            r == (Float4 { x: self.z, y: self.z, z: self.z, w: self.z }),
    {
        Float4 { x: self.z, y: self.z, z: self.z, w: self.z }
    }

    /// Returns the vector (z, z, z, w) of this vector's components.
    pub fn zzzw(&self) -> (r: Float4<T>)
        ensures
            r == (Float4 { x: self.z, y: self.z, z: self.z, w: self.w }),
    {
        Float4 { x: self.z, y: self.z, z: self.z, w: self.w }
    }

    /// Returns the vector (z, z, w, x) of this vector's components.
    pub fn zzwx(&self) -> (r: Float4<T>)
        ensures
            r == (Float4 { x: self.z, y: self.z, z: self.w, w: self.x }),
    {
        Float4 { x: self.z, y: self.z, z: self.w, w: self.x }
    }

    /// Returns the vector (z, z, w, y) of this vector's components.
    pub fn zzwy(&self) -> (r: Float4<T>)
        ensures
            r == (Float4 { x: self.z, y: self.z, z: self.w, w: self.y }),
    {
        Float4 { x: self.z, y: self.z, z: self.w, w: self.y }
    }

    /// Returns the vector (z, z, w, z) of this vector's components.
    pub fn zzwz(&self) -> (r: Float4<T>)
        ensures
            r == (Float4 { x: self.z, y: self.z, z: self.w, w: self.z }),
    {
        Float4 { x: self.z, y: self.z, z: self.w, w: self.z }
    }

    /// Returns the vector (z, z, w, w) of this vector's components.
    pub fn zzww(&self) -> (r: Float4<T>)
        ensures
            r == (Float4 { x: self.z, y: self.z, z: self.w, w: self.w }),
    {
        Float4 { x: self.z, y: self.z, z: self.w, w: self.w }
    }

    /// Returns the vector (z, w, x, x) of this vector's components.
    pub fn zwxx(&self) -> (r: Float4<T>)
        ensures
            r == (Float4 { x: self.z, y: self.w, z: self.x, w: self.x }),
    {
        Float4 { x: self.z, y: self.w, z: self.x, w: self.x }
    }

    /// Returns the vector (z, w, x, y) of this vector's components.
    pub fn zwxy(&self) -> (r: Float4<T>)
        ensures
            r == (Float4 { x: self.z, y: self.w, z: self.x, w: self.y }),
    {
        Float4 { x: self.z, y: self.w, z: self.x, w: self.y }
    }

    /// Returns the vector (z, w, x, z) of this vector's components.
    pub fn zwxz(&self) -> (r: Float4<T>)
        ensures
            r == (Float4 { x: self.z, y: self.w, z: self.x, w: self.z }),
    {
        Float4 { x: self.z, y: self.w, z: self.x, w: self.z }
    }

    /// Returns the vector (z, w, x, w) of this vector's components.
    pub fn zwxw(&self) -> (r: Float4<T>)
        ensures
            r == (Float4 { x: self.z, y: self.w, z: self.x, w: self.w }),
    {
        Float4 { x: self.z, y: self.w, z: self.x, w: self.w }
    }

    /// Returns the vector (z, w, y, x) of this vector's components.
    pub fn zwyx(&self) -> (r: Float4<T>)
        ensures
            r == (Float4 { x: self.z, y: self.w, z: self.y, w: self.x }),
    {
        Float4 { x: self.z, y: self.w, z: self.y, w: self.x }
    }

    /// Returns the vector (z, w, y, y) of this vector's components.
    pub fn zwyy(&self) -> (r: Float4<T>)
        ensures
            r == (Float4 { x: self.z, y: self.w, z: self.y, w: self.y }),
    {
        Float4 { x: self.z, y: self.w, z: self.y, w: self.y }
    }

    /// Returns the vector (z, w, y, z) of this vector's components.
    pub fn zwyz(&self) -> (r: Float4<T>)
        ensures
            r == (Float4 { x: self.z, y: self.w, z: self.y, w: self.z }),
    {
        Float4 { x: self.z, y: self.w, z: self.y, w: self.z }
    }

    /// Returns the vector (z, w, y, w) of this vector's components.
    pub fn zwyw(&self) -> (r: Float4<T>)
        ensures
            r == (Float4 { x: self.z, y: self.w, z: self.y, w: self.w }),
    {
        Float4 { x: self.z, y: self.w, z: self.y, w: self.w }
    }

    /// Returns the vector (z, w, z, x) of this vector's components.
    pub fn zwzx(&self) -> (r: Float4<T>)
        ensures
            r == (Float4 { x: self.z, y: self.w, z: self.z, w: self.x }),
    {
        Float4 { x: self.z, y: self.w, z: self.z, w: self.x }
    }

    /// Returns the vector (z, w, z, y) of this vector's components.
    pub fn zwzy(&self) -> (r: Float4<T>)
        ensures
            r == (Float4 { x: self.z, y: self.w, z: self.z, w: self.y }),
    {
        Float4 { x: self.z, y: self.w, z: self.z, w: self.y }
    }

    /// Returns the vector (z, w, z, z) of this vector's components.
    pub fn zwzz(&self) -> (r: Float4<T>)
        ensures
            r == (Float4 { x: self.z, y: self.w, z: self.z, w: self.z }),
    {
        Float4 { x: self.z, y: self.w, z: self.z, w: self.z }
    }

    /// Returns the vector (z, w, z, w) of this vector's components.
    pub fn zwzw(&self) -> (r: Float4<T>)
        ensures
            r == (Float4 { x: self.z, y: self.w, z: self.z, w: self.w }),
    {
        Float4 { x: self.z, y: self.w, z: self.z, w: self.w }
    }

    /// Returns the vector (z, w, w, x) of this vector's components.
    pub fn zwwx(&self) -> (r: Float4<T>)
        ensures
            r == (Float4 { x: self.z, y: self.w, z: self.w, w: self.x }),
    {
        Float4 { x: self.z, y: self.w, z: self.w, w: self.x }
    }

    /// Returns the vector (z, w, w, y) of this vector's components.
    pub fn zwwy(&self) -> (r: Float4<T>)
        ensures
            r == (Float4 { x: self.z, y: self.w, z: self.w, w: self.y }),
    {
        Float4 { x: self.z, y: self.w, z: self.w, w: self.y }
    }

    /// Returns the vector (z, w, w, z) of this vector's components.
    pub fn zwwz(&self) -> (r: Float4<T>)
        ensures
            r == (Float4 { x: self.z, y: self.w, z: self.w, w: self.z }),
    {
        Float4 { x: self.z, y: self.w, z: self.w, w: self.z }
    }

    /// Returns the vector (z, w, w, w) of this vector's components.
    pub fn zwww(&self) -> (r: Float4<T>)
        ensures
            r == (Float4 { x: self.z, y: self.w, z: self.w, w: self.w }),
    {
        Float4 { x: self.z, y: self.w, z: self.w, w: self.w }
    }

    /// Returns the vector (w, x, x, x) of this vector's components.
    pub fn wxxx(&self) -> (r: Float4<T>)
        ensures
            r == (Float4 { x: self.w, y: self.x, z: self.x, w: self.x }),
    {
        Float4 { x: self.w, y: self.x, z: self.x, w: self.x }
    }

    /// Returns the vector (w, x, x, y) of this vector's components.
    pub fn wxxy(&self) -> (r: Float4<T>)
        ensures
            r == (Float4 { x: self.w, y: self.x, z: self.x, w: self.y }),
    {
        Float4 { x: self.w, y: self.x, z: self.x, w: self.y }
    }

    /// Returns the vector (w, x, x, z) of this vector's components.
    pub fn wxxz(&self) -> (r: Float4<T>)
        ensures
            r == (Float4 { x: self.w, y: self.x, z: self.x, w: self.z }),
    {
        Float4 { x: self.w, y: self.x, z: self.x, w: self.z }
    }

    /// Returns the vector (w, x, x, w) of this vector's components.
    pub fn wxxw(&self) -> (r: Float4<T>)
        ensures
            r == (Float4 { x: self.w, y: self.x, z: self.x, w: self.w }),
    {
        Float4 { x: self.w, y: self.x, z: self.x, w: self.w }
    }

    /// Returns the vector (w, x, y, x) of this vector's components.
    pub fn wxyx(&self) -> (r: Float4<T>)
        ensures
            r == (Float4 { x: self.w, y: self.x, z: self.y, w: self.x }),
    {
        Float4 { x: self.w, y: self.x, z: self.y, w: self.x }
    }

    /// Returns the vector (w, x, y, y) of this vector's components.
    pub fn wxyy(&self) -> (r: Float4<T>)
        ensures
            r == (Float4 { x: self.w, y: self.x, z: self.y, w: self.y }),
    {
        Float4 { x: self.w, y: self.x, z: self.y, w: self.y }
    }

    /// Returns the vector (w, x, y, z) of this vector's components.
    pub fn wxyz(&self) -> (r: Float4<T>)
        ensures
            r == (Float4 { x: self.w, y: self.x, z: self.y, w: self.z }),
    {
        Float4 { x: self.w, y: self.x, z: self.y, w: self.z }
    }

    /// Returns the vector (w, x, y, w) of this vector's components.
    pub fn wxyw(&self) -> (r: Float4<T>)
        ensures
            r == (Float4 { x: self.w, y: self.x, z: self.y, w: self.w }),
    {
        Float4 { x: self.w, y: self.x, z: self.y, w: self.w }
    }

    /// Returns the vector (w, x, z, x) of this vector's components.
    pub fn wxzx(&self) -> (r: Float4<T>)
        ensures
            r == (Float4 { x: self.w, y: self.x, z: self.z, w: self.x }),
    {
        Float4 { x: self.w, y: self.x, z: self.z, w: self.x }
    }

    /// Returns the vector (w, x, z, y) of this vector's components.
    pub fn wxzy(&self) -> (r: Float4<T>)
        ensures
            r == (Float4 { x: self.w, y: self.x, z: self.z, w: self.y }),
    {
        Float4 { x: self.w, y: self.x, z: self.z, w: self.y }
    }

    /// Returns the vector (w, x, z, z) of this vector's components.
    pub fn wxzz(&self) -> (r: Float4<T>)
        ensures
            r == (Float4 { x: self.w, y: self.x, z: self.z, w: self.z }),
    {
        Float4 { x: self.w, y: self.x, z: self.z, w: self.z }
    }

    /// Returns the vector (w, x, z, w) of this vector's components.
    pub fn wxzw(&self) -> (r: Float4<T>)
        ensures
            r == (Float4 { x: self.w, y: self.x, z: self.z, w: self.w }),
    {
        Float4 { x: self.w, y: self.x, z: self.z, w: self.w }
    }

    /// Returns the vector (w, x, w, x) of this vector's components.
    pub fn wxwx(&self) -> (r: Float4<T>)
        ensures
            r == (Float4 { x: self.w, y: self.x, z: self.w, w: self.x }),
    {
        Float4 { x: self.w, y: self.x, z: self.w, w: self.x }
    }

    /// Returns the vector (w, x, w, y) of this vector's components.
    pub fn wxwy(&self) -> (r: Float4<T>)
        ensures
            r == (Float4 { x: self.w, y: self.x, z: self.w, w: self.y }),
    {
        Float4 { x: self.w, y: self.x, z: self.w, w: self.y }
    }

    /// Returns the vector (w, x, w, z) of this vector's components.
    pub fn wxwz(&self) -> (r: Float4<T>)
        ensures
            r == (Float4 { x: self.w, y: self.x, z: self.w, w: self.z }),
    {
        Float4 { x: self.w, y: self.x, z: self.w, w: self.z }
    }

    /// Returns the vector (w, x, w, w) of this vector's components.
    pub fn wxww(&self) -> (r: Float4<T>)
        ensures
            r == (Float4 { x: self.w, y: self.x, z: self.w, w: self.w }),
    {
        Float4 { x: self.w, y: self.x, z: self.w, w: self.w }
    }

    /// Returns the vector (w, y, x, x) of this vector's components.
    pub fn wyxx(&self) -> (r: Float4<T>)
        ensures
            r == (Float4 { x: self.w, y: self.y, z: self.x, w: self.x }),
    {
        Float4 { x: self.w, y: self.y, z: self.x, w: self.x }
    }

    /// Returns the vector (w, y, x, y) of this vector's components.
    pub fn wyxy(&self) -> (r: Float4<T>)
        ensures
            r == (Float4 { x: self.w, y: self.y, z: self.x, w: self.y }),
    {
        Float4 { x: self.w, y: self.y, z: self.x, w: self.y }
    }

    /// Returns the vector (w, y, x, z) of this vector's components.
    pub fn wyxz(&self) -> (r: Float4<T>)
        ensures
            r == (Float4 { x: self.w, y: self.y, z: self.x, w: self.z }),
    {
        Float4 { x: self.w, y: self.y, z: self.x, w: self.z }
    }

    /// Returns the vector (w, y, x, w) of this vector's components.
    pub fn wyxw(&self) -> (r: Float4<T>)
        ensures
            r == (Float4 { x: self.w, y: self.y, z: self.x, w: self.w }),
    {
        Float4 { x: self.w, y: self.y, z: self.x, w: self.w }
    }

    /// Returns the vector (w, y, y, x) of this vector's components.
    pub fn wyyx(&self) -> (r: Float4<T>)
        ensures
            r == (Float4 { x: self.w, y: self.y, z: self.y, w: self.x }),
    {
        Float4 { x: self.w, y: self.y, z: self.y, w: self.x }
    }

    /// Returns the vector (w, y, y, y) of this vector's components.
    pub fn wyyy(&self) -> (r: Float4<T>)
        ensures
            r == (Float4 { x: self.w, y: self.y, z: self.y, w: self.y }),
    {
        Float4 { x: self.w, y: self.y, z: self.y, w: self.y }
    }

    /// Returns the vector (w, y, y, z) of this vector's components.
    pub fn wyyz(&self) -> (r: Float4<T>)
        ensures
            r == (Float4 { x: self.w, y: self.y, z: self.y, w: self.z }),
    {
        Float4 { x: self.w, y: self.y, z: self.y, w: self.z }
    }

    /// Returns the vector (w, y, y, w) of this vector's components.
    pub fn wyyw(&self) -> (r: Float4<T>)
        ensures
            r == (Float4 { x: self.w, y: self.y, z: self.y, w: self.w }),
    {
        Float4 { x: self.w, y: self.y, z: self.y, w: self.w }
    }

    /// Returns the vector (w, y, z, x) of this vector's components.
    pub fn wyzx(&self) -> (r: Float4<T>)
        ensures
            r == (Float4 { x: self.w, y: self.y, z: self.z, w: self.x }),
    {
        Float4 { x: self.w, y: self.y, z: self.z, w: self.x }
    }

    /// Returns the vector (w, y, z, y) of this vector's components.
    pub fn wyzy(&self) -> (r: Float4<T>)
        ensures
            r == (Float4 { x: self.w, y: self.y, z: self.z, w: self.y }),
    {
        Float4 { x: self.w, y: self.y, z: self.z, w: self.y }
    }

    /// Returns the vector (w, y, z, z) of this vector's components.
    pub fn wyzz(&self) -> (r: Float4<T>)
        ensures
            r == (Float4 { x: self.w, y: self.y, z: self.z, w: self.z }),
    {
        Float4 { x: self.w, y: self.y, z: self.z, w: self.z }
    }

    /// Returns the vector (w, y, z, w) of this vector's components.
    pub fn wyzw(&self) -> (r: Float4<T>)
        ensures
            r == (Float4 { x: self.w, y: self.y, z: self.z, w: self.w }),
    {
        Float4 { x: self.w, y: self.y, z: self.z, w: self.w }
    }

    /// Returns the vector (w, y, w, x) of this vector's components.
    pub fn wywx(&self) -> (r: Float4<T>)
        ensures
            r == (Float4 { x: self.w, y: self.y, z: self.w, w: self.x }),
    {
        Float4 { x: self.w, y: self.y, z: self.w, w: self.x }
    }

    /// Returns the vector (w, y, w, y) of this vector's components.
    pub fn wywy(&self) -> (r: Float4<T>)
        ensures
            r == (Float4 { x: self.w, y: self.y, z: self.w, w: self.y }),
    {
        Float4 { x: self.w, y: self.y, z: self.w, w: self.y }
    }

    /// Returns the vector (w, y, w, z) of this vector's components.
    pub fn wywz(&self) -> (r: Float4<T>)
        ensures
            r == (Float4 { x: self.w, y: self.y, z: self.w, w: self.z }),
    {
        Float4 { x: self.w, y: self.y, z: self.w, w: self.z }
    }

    /// Returns the vector (w, y, w, w) of this vector's components.
    pub fn wyww(&self) -> (r: Float4<T>)
        ensures
            r == (Float4 { x: self.w, y: self.y, z: self.w, w: self.w }),
    {
        Float4 { x: self.w, y: self.y, z: self.w, w: self.w }
    }

    /// Returns the vector (w, z, x, x) of this vector's components.
    pub fn wzxx(&self) -> (r: Float4<T>)
        ensures
            r == (Float4 { x: self.w, y: self.z, z: self.x, w: self.x }),
    {
        Float4 { x: self.w, y: self.z, z: self.x, w: self.x }
    }

    /// Returns the vector (w, z, x, y) of this vector's components.
    pub fn wzxy(&self) -> (r: Float4<T>)
        ensures
            r == (Float4 { x: self.w, y: self.z, z: self.x, w: self.y }),
    {
        Float4 { x: self.w, y: self.z, z: self.x, w: self.y }
    }

    /// Returns the vector (w, z, x, z) of this vector's components.
    pub fn wzxz(&self) -> (r: Float4<T>)
        ensures
            r == (Float4 { x: self.w, y: self.z, z: self.x, w: self.z }),
    {
        Float4 { x: self.w, y: self.z, z: self.x, w: self.z }
    }

    /// Returns the vector (w, z, x, w) of this vector's components.
    pub fn wzxw(&self) -> (r: Float4<T>)
        ensures
            r == (Float4 { x: self.w, y: self.z, z: self.x, w: self.w }),
    {
        Float4 { x: self.w, y: self.z, z: self.x, w: self.w }
    }

    /// Returns the vector (w, z, y, x) of this vector's components.
    pub fn wzyx(&self) -> (r: Float4<T>)
        ensures
            r == (Float4 { x: self.w, y: self.z, z: self.y, w: self.x }),
    {
        Float4 { x: self.w, y: self.z, z: self.y, w: self.x }
    }

    /// Returns the vector (w, z, y, y) of this vector's components.
    pub fn wzyy(&self) -> (r: Float4<T>)
        ensures
            r == (Float4 { x: self.w, y: self.z, z: self.y, w: self.y }),
    {
        Float4 { x: self.w, y: self.z, z: self.y, w: self.y }
    }

    /// Returns the vector (w, z, y, z) of this vector's components.
    pub fn wzyz(&self) -> (r: Float4<T>)
        ensures
            r == (Float4 { x: self.w, y: self.z, z: self.y, w: self.z }),
    {
        Float4 { x: self.w, y: self.z, z: self.y, w: self.z }
    }

    /// Returns the vector (w, z, y, w) of this vector's components.
    pub fn wzyw(&self) -> (r: Float4<T>)
        ensures
            r == (Float4 { x: self.w, y: self.z, z: self.y, w: self.w }),
    {
        Float4 { x: self.w, y: self.z, z: self.y, w: self.w }
    }

    /// Returns the vector (w, z, z, x) of this vector's components.
    pub fn wzzx(&self) -> (r: Float4<T>)
        ensures
            r == (Float4 { x: self.w, y: self.z, z: self.z, w: self.x }),
    {
        Float4 { x: self.w, y: self.z, z: self.z, w: self.x }
    }

    /// Returns the vector (w, z, z, y) of this vector's components.
    pub fn wzzy(&self) -> (r: Float4<T>)
        ensures
            r == (Float4 { x: self.w, y: self.z, z: self.z, w: self.y }),
    {
        Float4 { x: self.w, y: self.z, z: self.z, w: self.y }
    }

    /// Returns the vector (w, z, z, z) of this vector's components.
    pub fn wzzz(&self) -> (r: Float4<T>)
        ensures
            r == (Float4 { x: self.w, y: self.z, z: self.z, w: self.z }),
    {
        Float4 { x: self.w, y: self.z, z: self.z, w: self.z }
    }

    /// Returns the vector (w, z, z, w) of this vector's components.
    pub fn wzzw(&self) -> (r: Float4<T>)
        ensures
            r == (Float4 { x: self.w, y: self.z, z: self.z, w: self.w }),
    {
        Float4 { x: self.w, y: self.z, z: self.z, w: self.w }
    }

    /// Returns the vector (w, z, w, x) of this vector's components.
    pub fn wzwx(&self) -> (r: Float4<T>)
        ensures
            r == (Float4 { x: self.w, y: self.z, z: self.w, w: self.x }),
    {
        Float4 { x: self.w, y: self.z, z: self.w, w: self.x }
    }

    /// Returns the vector (w, z, w, y) of this vector's components.
    pub fn wzwy(&self) -> (r: Float4<T>)
        ensures
            r == (Float4 { x: self.w, y: self.z, z: self.w, w: self.y }),
    {
        Float4 { x: self.w, y: self.z, z: self.w, w: self.y }
    }

    /// Returns the vector (w, z, w, z) of this vector's components.
    pub fn wzwz(&self) -> (r: Float4<T>)
        ensures
            r == (Float4 { x: self.w, y: self.z, z: self.w, w: self.z }),
    {
        Float4 { x: self.w, y: self.z, z: self.w, w: self.z }
    }

    /// Returns the vector (w, z, w, w) of this vector's components.
    pub fn wzww(&self) -> (r: Float4<T>)
        ensures
            r == (Float4 { x: self.w, y: self.z, z: self.w, w: self.w }),
    {
        Float4 { x: self.w, y: self.z, z: self.w, w: self.w }
    }

    /// Returns the vector (w, w, x, x) of this vector's components.
    pub fn wwxx(&self) -> (r: Float4<T>)
        ensures
            r == (Float4 { x: self.w, y: self.w, z: self.x, w: self.x }),
    {
        Float4 { x: self.w, y: self.w, z: self.x, w: self.x }
    }

    /// Returns the vector (w, w, x, y) of this vector's components.
    pub fn wwxy(&self) -> (r: Float4<T>)
        ensures
            r == (Float4 { x: self.w, y: self.w, z: self.x, w: self.y }),
    {
        Float4 { x: self.w, y: self.w, z: self.x, w: self.y }
    }

    /// Returns the vector (w, w, x, z) of this vector's components.
    pub fn wwxz(&self) -> (r: Float4<T>)
        ensures
            r == (Float4 { x: self.w, y: self.w, z: self.x, w: self.z }),
    {
        Float4 { x: self.w, y: self.w, z: self.x, w: self.z }
    }

    /// Returns the vector (w, w, x, w) of this vector's components.
    pub fn wwxw(&self) -> (r: Float4<T>)
        ensures
            r == (Float4 { x: self.w, y: self.w, z: self.x, w: self.w }),
    {
        Float4 { x: self.w, y: self.w, z: self.x, w: self.w }
    }

    /// Returns the vector (w, w, y, x) of this vector's components.
    pub fn wwyx(&self) -> (r: Float4<T>)
        ensures
            r == (Float4 { x: self.w, y: self.w, z: self.y, w: self.x }),
    {
        Float4 { x: self.w, y: self.w, z: self.y, w: self.x }
    }

    /// Returns the vector (w, w, y, y) of this vector's components.
    pub fn wwyy(&self) -> (r: Float4<T>)
        ensures
            r == (Float4 { x: self.w, y: self.w, z: self.y, w: self.y }),
    {
        Float4 { x: self.w, y: self.w, z: self.y, w: self.y }
    }

    /// Returns the vector (w, w, y, z) of this vector's components.
    pub fn wwyz(&self) -> (r: Float4<T>)
        ensures
            r == (Float4 { x: self.w, y: self.w, z: self.y, w: self.z }),
    {
        Float4 { x: self.w, y: self.w, z: self.y, w: self.z }
    }

    /// Returns the vector (w, w, y, w) of this vector's components.
    pub fn wwyw(&self) -> (r: Float4<T>)
        ensures
            r == (Float4 { x: self.w, y: self.w, z: self.y, w: self.w }),
    {
        Float4 { x: self.w, y: self.w, z: self.y, w: self.w }
    }

    /// Returns the vector (w, w, z, x) of this vector's components.
    pub fn wwzx(&self) -> (r: Float4<T>)
        ensures
            r == (Float4 { x: self.w, y: self.w, z: self.z, w: self.x }),
    {
        Float4 { x: self.w, y: self.w, z: self.z, w: self.x }
    }

    /// Returns the vector (w, w, z, y) of this vector's components.
    pub fn wwzy(&self) -> (r: Float4<T>)
        ensures
            r == (Float4 { x: self.w, y: self.w, z: self.z, w: self.y }),
    {
        Float4 { x: self.w, y: self.w, z: self.z, w: self.y }
    }

    /// Returns the vector (w, w, z, z) of this vector's components.
    pub fn wwzz(&self) -> (r: Float4<T>)
        ensures
            r == (Float4 { x: self.w, y: self.w, z: self.z, w: self.z }),
    {
        Float4 { x: self.w, y: self.w, z: self.z, w: self.z }
    }

    /// Returns the vector (w, w, z, w) of this vector's components.
    pub fn wwzw(&self) -> (r: Float4<T>)
        ensures
            r == (Float4 { x: self.w, y: self.w, z: self.z, w: self.w }),
    {
        Float4 { x: self.w, y: self.w, z: self.z, w: self.w }
    }

    /// Returns the vector (w, w, w, x) of this vector's components.
    pub fn wwwx(&self) -> (r: Float4<T>)
        ensures
            r == (Float4 { x: self.w, y: self.w, z: self.w, w: self.x }),
    {
        Float4 { x: self.w, y: self.w, z: self.w, w: self.x }
    }

    /// Returns the vector (w, w, w, y) of this vector's components.
    pub fn wwwy(&self) -> (r: Float4<T>)
        ensures
            r == (Float4 { x: self.w, y: self.w, z: self.w, w: self.y }),
    {
        Float4 { x: self.w, y: self.w, z: self.w, w: self.y }
    }

    /// Returns the vector (w, w, w, z) of this vector's components.
    pub fn wwwz(&self) -> (r: Float4<T>)
        ensures
            r == (Float4 { x: self.w, y: self.w, z: self.w, w: self.z }),
    {
        Float4 { x: self.w, y: self.w, z: self.w, w: self.z }
    }

    /// Returns the vector (w, w, w, w) of this vector's components.
    pub fn wwww(&self) -> (r: Float4<T>)
        ensures
            r == (Float4 { x: self.w, y: self.w, z: self.w, w: self.w }),
    {
        Float4 { x: self.w, y: self.w, z: self.w, w: self.w }
    }
}

} // verus!
