use vstd::prelude::*;
use vstd::std_specs::cmp::PartialEqSpec;
use vstd::std_specs::ops::AddSpec;
use vstd::std_specs::ops::SubSpec;
use vstd::std_specs::ops::MulSpec;
use vstd::std_specs::ops::DivSpec;
use vstd::std_specs::ops::NegSpec;

use crate::float3::Float3;
use crate::float4::Float4;
use crate::scalar;

verus! {

/// Vector of two components of a copyable scalar type `T`.
///
/// Every value of the components is a valid vector. The arithmetic operators
/// work component by component through the scalar type's own operators, so each
/// component of a result is exactly what that scalar operation gives.
#[derive(Clone, Copy, Debug)]
pub struct Float2<T> {
    /// The x-component of the vector.
    pub x: T,
    /// The y-component of the vector.
    pub y: T,
}

impl<T: Copy + core::ops::Add<Output = T>> core::ops::Add<Float2<T>> for Float2<T> {
    type Output = Float2<T>;

    /// Component-wise sum of `self` and the matching components of `rhs`.
    fn add(self, rhs: Float2<T>) -> (r: Float2<T>)
        ensures
            call_ensures(T::add, (self.x, rhs.x), r.x),
            call_ensures(T::add, (self.y, rhs.y), r.y),
    {
        Float2 { x: self.x + rhs.x, y: self.y + rhs.y }
    }
}

impl<T: Copy + core::ops::Add<Output = T>> vstd::std_specs::ops::AddSpecImpl<Float2<T>> for Float2<T> {
    open spec fn obeys_add_spec() -> bool {
        T::obeys_add_spec()
    }

    open spec fn add_req(self, rhs: Float2<T>) -> bool {
        self.x.add_req(rhs.x) && self.y.add_req(rhs.y)
    }

    open spec fn add_spec(self, rhs: Float2<T>) -> Float2<T> {
        Float2 { x: self.x.add_spec(rhs.x), y: self.y.add_spec(rhs.y) }
    }
}

impl<T: Copy + core::ops::Add<Output = T>> core::ops::AddAssign<Float2<T>> for Float2<T> {
    /// Replaces each component with its sum with the matching components of `rhs`.
    fn add_assign(&mut self, rhs: Float2<T>)
        requires
            old(self).x.add_req(rhs.x),
            old(self).y.add_req(rhs.y),
        ensures
            call_ensures(T::add, (old(self).x, rhs.x), final(self).x),
            call_ensures(T::add, (old(self).y, rhs.y), final(self).y),
    {
        self.x = self.x + rhs.x;
        self.y = self.y + rhs.y;
    }
}

impl<T: Copy + core::ops::Add<Output = T>> core::ops::Add<T> for Float2<T> {
    type Output = Float2<T>;

    /// Component-wise sum of `self` and the scalar `rhs`.
    fn add(self, rhs: T) -> (r: Float2<T>)
        ensures
            call_ensures(T::add, (self.x, rhs), r.x),
            call_ensures(T::add, (self.y, rhs), r.y),
    {
        Float2 { x: self.x + rhs, y: self.y + rhs }
    }
}

impl<T: Copy + core::ops::Add<Output = T>> vstd::std_specs::ops::AddSpecImpl<T> for Float2<T> {
    open spec fn obeys_add_spec() -> bool {
        T::obeys_add_spec()
    }

    open spec fn add_req(self, rhs: T) -> bool {
        self.x.add_req(rhs) && self.y.add_req(rhs)
    }

    open spec fn add_spec(self, rhs: T) -> Float2<T> {
        Float2 { x: self.x.add_spec(rhs), y: self.y.add_spec(rhs) }
    }
}

impl<T: Copy + core::ops::Add<Output = T>> core::ops::AddAssign<T> for Float2<T> {
    /// Replaces each component with its sum with the scalar `rhs`.
    fn add_assign(&mut self, rhs: T)
        requires
            old(self).x.add_req(rhs),
            old(self).y.add_req(rhs),
        ensures
            call_ensures(T::add, (old(self).x, rhs), final(self).x),
            call_ensures(T::add, (old(self).y, rhs), final(self).y),
    {
        self.x = self.x + rhs;
        self.y = self.y + rhs;
    }
}

impl<T: Copy + core::ops::Sub<Output = T>> core::ops::Sub<Float2<T>> for Float2<T> {
    type Output = Float2<T>;

    /// Component-wise difference of `self` and the matching components of `rhs`.
    fn sub(self, rhs: Float2<T>) -> (r: Float2<T>)
        ensures
            call_ensures(T::sub, (self.x, rhs.x), r.x),
            call_ensures(T::sub, (self.y, rhs.y), r.y),
    {
        Float2 { x: self.x - rhs.x, y: self.y - rhs.y }
    }
}

impl<T: Copy + core::ops::Sub<Output = T>> vstd::std_specs::ops::SubSpecImpl<Float2<T>> for Float2<T> {
    open spec fn obeys_sub_spec() -> bool {
        T::obeys_sub_spec()
    }

    open spec fn sub_req(self, rhs: Float2<T>) -> bool {
        self.x.sub_req(rhs.x) && self.y.sub_req(rhs.y)
    }

    open spec fn sub_spec(self, rhs: Float2<T>) -> Float2<T> {
        Float2 { x: self.x.sub_spec(rhs.x), y: self.y.sub_spec(rhs.y) }
    }
}

impl<T: Copy + core::ops::Sub<Output = T>> core::ops::SubAssign<Float2<T>> for Float2<T> {
    /// Replaces each component with its difference with the matching components of `rhs`.
    fn sub_assign(&mut self, rhs: Float2<T>)
        requires
            old(self).x.sub_req(rhs.x),
            old(self).y.sub_req(rhs.y),
        ensures
            call_ensures(T::sub, (old(self).x, rhs.x), final(self).x),
            call_ensures(T::sub, (old(self).y, rhs.y), final(self).y),
    {
        self.x = self.x - rhs.x;
        self.y = self.y - rhs.y;
    }
}

impl<T: Copy + core::ops::Sub<Output = T>> core::ops::Sub<T> for Float2<T> {
    type Output = Float2<T>;

    /// Component-wise difference of `self` and the scalar `rhs`.
    fn sub(self, rhs: T) -> (r: Float2<T>)
        ensures
            call_ensures(T::sub, (self.x, rhs), r.x),
            call_ensures(T::sub, (self.y, rhs), r.y),
    {
        Float2 { x: self.x - rhs, y: self.y - rhs }
    }
}

impl<T: Copy + core::ops::Sub<Output = T>> vstd::std_specs::ops::SubSpecImpl<T> for Float2<T> {
    open spec fn obeys_sub_spec() -> bool {
        T::obeys_sub_spec()
    }

    open spec fn sub_req(self, rhs: T) -> bool {
        self.x.sub_req(rhs) && self.y.sub_req(rhs)
    }

    open spec fn sub_spec(self, rhs: T) -> Float2<T> {
        Float2 { x: self.x.sub_spec(rhs), y: self.y.sub_spec(rhs) }
    }
}

impl<T: Copy + core::ops::Sub<Output = T>> core::ops::SubAssign<T> for Float2<T> {
    /// Replaces each component with its difference with the scalar `rhs`.
    fn sub_assign(&mut self, rhs: T)
        requires
            old(self).x.sub_req(rhs),
            old(self).y.sub_req(rhs),
        ensures
            call_ensures(T::sub, (old(self).x, rhs), final(self).x),
            call_ensures(T::sub, (old(self).y, rhs), final(self).y),
    {
        self.x = self.x - rhs;
        self.y = self.y - rhs;
    }
}

impl<T: Copy + core::ops::Mul<Output = T>> core::ops::Mul<Float2<T>> for Float2<T> {
    type Output = Float2<T>;

    /// Component-wise product of `self` and the matching components of `rhs`.
    fn mul(self, rhs: Float2<T>) -> (r: Float2<T>)
        ensures
            call_ensures(T::mul, (self.x, rhs.x), r.x),
            call_ensures(T::mul, (self.y, rhs.y), r.y),
    {
        Float2 { x: self.x * rhs.x, y: self.y * rhs.y }
    }
}

impl<T: Copy + core::ops::Mul<Output = T>> vstd::std_specs::ops::MulSpecImpl<Float2<T>> for Float2<T> {
    open spec fn obeys_mul_spec() -> bool {
        T::obeys_mul_spec()
    }

    open spec fn mul_req(self, rhs: Float2<T>) -> bool {
        self.x.mul_req(rhs.x) && self.y.mul_req(rhs.y)
    }

    open spec fn mul_spec(self, rhs: Float2<T>) -> Float2<T> {
        Float2 { x: self.x.mul_spec(rhs.x), y: self.y.mul_spec(rhs.y) }
    }
}

impl<T: Copy + core::ops::Mul<Output = T>> core::ops::MulAssign<Float2<T>> for Float2<T> {
    /// Replaces each component with its product with the matching components of `rhs`.
    fn mul_assign(&mut self, rhs: Float2<T>)
        requires
            old(self).x.mul_req(rhs.x),
            old(self).y.mul_req(rhs.y),
        ensures
            call_ensures(T::mul, (old(self).x, rhs.x), final(self).x),
            call_ensures(T::mul, (old(self).y, rhs.y), final(self).y),
    {
        self.x = self.x * rhs.x;
        self.y = self.y * rhs.y;
    }
}

impl<T: Copy + core::ops::Mul<Output = T>> core::ops::Mul<T> for Float2<T> {
    type Output = Float2<T>;

    /// Component-wise product of `self` and the scalar `rhs`.
    fn mul(self, rhs: T) -> (r: Float2<T>)
        ensures
            call_ensures(T::mul, (self.x, rhs), r.x),
            call_ensures(T::mul, (self.y, rhs), r.y),
    {
        Float2 { x: self.x * rhs, y: self.y * rhs }
    }
}

impl<T: Copy + core::ops::Mul<Output = T>> vstd::std_specs::ops::MulSpecImpl<T> for Float2<T> {
    open spec fn obeys_mul_spec() -> bool {
        T::obeys_mul_spec()
    }

    open spec fn mul_req(self, rhs: T) -> bool {
        self.x.mul_req(rhs) && self.y.mul_req(rhs)
    }

    open spec fn mul_spec(self, rhs: T) -> Float2<T> {
        Float2 { x: self.x.mul_spec(rhs), y: self.y.mul_spec(rhs) }
    }
}

impl<T: Copy + core::ops::Mul<Output = T>> core::ops::MulAssign<T> for Float2<T> {
    /// Replaces each component with its product with the scalar `rhs`.
    fn mul_assign(&mut self, rhs: T)
        requires
            old(self).x.mul_req(rhs),
            old(self).y.mul_req(rhs),
        ensures
            call_ensures(T::mul, (old(self).x, rhs), final(self).x),
            call_ensures(T::mul, (old(self).y, rhs), final(self).y),
    {
        self.x = self.x * rhs;
        self.y = self.y * rhs;
    }
}

impl<T: Copy + core::ops::Div<Output = T>> core::ops::Div<Float2<T>> for Float2<T> {
    type Output = Float2<T>;

    /// Component-wise quotient of `self` and the matching components of `rhs`.
    fn div(self, rhs: Float2<T>) -> (r: Float2<T>)
        ensures
            call_ensures(T::div, (self.x, rhs.x), r.x),
            call_ensures(T::div, (self.y, rhs.y), r.y),
    {
        Float2 { x: self.x / rhs.x, y: self.y / rhs.y }
    }
}

impl<T: Copy + core::ops::Div<Output = T>> vstd::std_specs::ops::DivSpecImpl<Float2<T>> for Float2<T> {
    open spec fn obeys_div_spec() -> bool {
        T::obeys_div_spec()
    }

    open spec fn div_req(self, rhs: Float2<T>) -> bool {
        self.x.div_req(rhs.x) && self.y.div_req(rhs.y)
    }

    open spec fn div_spec(self, rhs: Float2<T>) -> Float2<T> {
        Float2 { x: self.x.div_spec(rhs.x), y: self.y.div_spec(rhs.y) }
    }
}

impl<T: Copy + core::ops::Div<Output = T>> core::ops::DivAssign<Float2<T>> for Float2<T> {
    /// Replaces each component with its quotient with the matching components of `rhs`.
    fn div_assign(&mut self, rhs: Float2<T>)
        requires
            old(self).x.div_req(rhs.x),
            old(self).y.div_req(rhs.y),
        ensures
            call_ensures(T::div, (old(self).x, rhs.x), final(self).x),
            call_ensures(T::div, (old(self).y, rhs.y), final(self).y),
    {
        self.x = self.x / rhs.x;
        self.y = self.y / rhs.y;
    }
}

impl<T: Copy + core::ops::Div<Output = T>> core::ops::Div<T> for Float2<T> {
    type Output = Float2<T>;

    /// Component-wise quotient of `self` and the scalar `rhs`.
    fn div(self, rhs: T) -> (r: Float2<T>)
        ensures
            call_ensures(T::div, (self.x, rhs), r.x),
            call_ensures(T::div, (self.y, rhs), r.y),
    {
        Float2 { x: self.x / rhs, y: self.y / rhs }
    }
}

impl<T: Copy + core::ops::Div<Output = T>> vstd::std_specs::ops::DivSpecImpl<T> for Float2<T> {
    open spec fn obeys_div_spec() -> bool {
        T::obeys_div_spec()
    }

    open spec fn div_req(self, rhs: T) -> bool {
        self.x.div_req(rhs) && self.y.div_req(rhs)
    }

    open spec fn div_spec(self, rhs: T) -> Float2<T> {
        Float2 { x: self.x.div_spec(rhs), y: self.y.div_spec(rhs) }
    }
}

impl<T: Copy + core::ops::Div<Output = T>> core::ops::DivAssign<T> for Float2<T> {
    /// Replaces each component with its quotient with the scalar `rhs`.
    fn div_assign(&mut self, rhs: T)
        requires
            old(self).x.div_req(rhs),
            old(self).y.div_req(rhs),
        ensures
            call_ensures(T::div, (old(self).x, rhs), final(self).x),
            call_ensures(T::div, (old(self).y, rhs), final(self).y),
    {
        self.x = self.x / rhs;
        self.y = self.y / rhs;
    }
}

impl<T: Copy + core::ops::Neg<Output = T>> core::ops::Neg for Float2<T> {
    type Output = Float2<T>;

    /// Negates every component.
    fn neg(self) -> (r: Float2<T>)
        ensures
            call_ensures(T::neg, (self.x,), r.x),
            call_ensures(T::neg, (self.y,), r.y),
    {
        Float2 { x: core::ops::Neg::neg(self.x), y: core::ops::Neg::neg(self.y) }
    }
}

impl<T: Copy + core::ops::Neg<Output = T>> vstd::std_specs::ops::NegSpecImpl for Float2<T> {
    open spec fn obeys_neg_spec() -> bool {
        T::obeys_neg_spec()
    }

    open spec fn neg_req(self) -> bool {
        self.x.neg_req() && self.y.neg_req()
    }

    open spec fn neg_spec(self) -> Float2<T> {
        Float2 { x: self.x.neg_spec(), y: self.y.neg_spec() }
    }
}

impl<T: PartialEq> PartialEq for Float2<T> {
    /// Two vectors are equal when every pair of matching components compares equal
    /// under the scalar type's own `==`; with a scalar that is never equal to itself
    /// (a NaN), the vectors that hold it are never equal either.
    fn eq(&self, rhs: &Float2<T>) -> (r: bool)
        ensures
            r ==> (
                call_ensures(T::eq, (&self.x, &rhs.x), true)
                && call_ensures(T::eq, (&self.y, &rhs.y), true)
            ),
            !r ==> (
                call_ensures(T::eq, (&self.x, &rhs.x), false)
                || call_ensures(T::eq, (&self.y, &rhs.y), false)
            ),
    {
        self.x == rhs.x && self.y == rhs.y
    }
}

impl<T: PartialEq> vstd::std_specs::cmp::PartialEqSpecImpl for Float2<T> {
    open spec fn obeys_eq_spec() -> bool {
        T::obeys_eq_spec()
    }

    open spec fn eq_spec(&self, rhs: &Float2<T>) -> bool {
        self.x.eq_spec(&rhs.x) && self.y.eq_spec(&rhs.y)
    }
}

impl<T: Copy> From<T> for Float2<T> {
    /// Broadcasts one scalar to every component.
    fn from(v: T) -> (r: Float2<T>)
        ensures
            r == Float2::<T>::splat(v),
    {
        Float2 { x: v, y: v }
    }
}

impl<T: Copy> vstd::std_specs::convert::FromSpecImpl<T> for Float2<T> {
    open spec fn obeys_from_spec() -> bool {
        true
    }

    open spec fn from_spec(v: T) -> Float2<T> {
        Float2::<T>::splat(v)
    }
}

impl<T: Copy> From<(T, T)> for Float2<T> {
    /// Takes the tuple's elements as the components, in field order.
    fn from(v: (T, T)) -> (r: Float2<T>)
        ensures
            r == Float2::<T>::from_tuple(v),
    {
        Float2 { x: v.0, y: v.1 }
    }
}

impl<T: Copy> vstd::std_specs::convert::FromSpecImpl<(T, T)> for Float2<T> {
    open spec fn obeys_from_spec() -> bool {
        true
    }

    open spec fn from_spec(v: (T, T)) -> Float2<T> {
        Float2::<T>::from_tuple(v)
    }
}

impl<T: Copy + core::ops::Add<Output = T> + core::ops::Mul<Output = T>> Float2<T> {
    /// `r` is a result that the scalar type gives for the dot product of `self` and
    /// `rhs`, summed from the first component to the last.
    pub open spec fn dot_of(self, rhs: Float2<T>, r: T) -> bool {
        exists|p: T|
            #[trigger] call_ensures(T::mul, (self.x, rhs.x), p)
                && #[trigger] scalar::product_add_of(p, self.y, rhs.y, r)
    }

    /// The scalar type can evaluate every step of the dot product of `self` and `rhs`.
    pub open spec fn dot_req(self, rhs: Float2<T>) -> bool {
        &&& self.x.mul_req(rhs.x)
        &&& forall|p: T| #[trigger] call_ensures(T::mul, (self.x, rhs.x), p) ==> (
            scalar::product_add_req(p, self.y, rhs.y)
        )
    }

    /// Computes the dot product: the sum of the products of matching components.
    pub fn dot(&self, rhs: &Float2<T>) -> (r: T)
        requires
            self.dot_req(*rhs),
        ensures
            self.dot_of(*rhs, r),
    {
        let p = self.x * rhs.x;
        let r = scalar::product_add(p, self.y, rhs.y);
        r
    }

    /// Computes the component-wise multiply-add `self * b + c`.
    pub fn mad(&self, b: &Float2<T>, c: &Float2<T>) -> (r: Float2<T>)
        requires
            scalar::mad_req(self.x, b.x, c.x),
            scalar::mad_req(self.y, b.y, c.y),
        ensures
            scalar::mad_of(self.x, b.x, c.x, r.x),
            scalar::mad_of(self.y, b.y, c.y, r.y),
    {
        Float2 {
            x: scalar::mad(self.x, b.x, c.x),
            y: scalar::mad(self.y, b.y, c.y),
        }
    }
}

impl<T: Copy + core::ops::Add<Output = T> + core::ops::Sub<Output = T> + core::ops::Mul<Output = T>> Float2<T> {
    /// Computes the linear interpolation `self + t * (rhs - self)` per component;
    /// `t` is not clamped, so values outside `[0, 1]` extrapolate.
    pub fn lerp(&self, rhs: &Float2<T>, t: T) -> (r: Float2<T>)
        requires
            scalar::lerp_req(self.x, rhs.x, t),
            scalar::lerp_req(self.y, rhs.y, t),
        ensures
            scalar::lerp_of(self.x, rhs.x, t, r.x),
            scalar::lerp_of(self.y, rhs.y, t, r.y),
    {
        Float2 {
            x: scalar::lerp(self.x, rhs.x, t),
            y: scalar::lerp(self.y, rhs.y, t),
        }
    }
}
impl<T: Copy> Float2<T> {
    /// The vector whose every component is `v`.
    pub open spec fn splat(v: T) -> Float2<T> {
        Float2 { x: v, y: v }
    }

    /// The vector whose components are the tuple's elements, in field order.
    pub open spec fn from_tuple(v: (T, T)) -> Float2<T> {
        Float2 { x: v.0, y: v.1 }
    }

    /// Creates a vector from two components, in field order.
    pub fn new(x: T, y: T) -> (r: Self)
        ensures
            r == (Float2 { x, y }),
    {
        Float2 { x, y }
    }

    /// Returns the vector (x, x) of this vector's components.
    pub fn xx(&self) -> (r: Float2<T>)
        ensures
            r == (Float2 { x: self.x, y: self.x }),
    {
        Float2 { x: self.x, y: self.x }
    }

    /// Returns the vector (x, y) of this vector's components.
    pub fn xy(&self) -> (r: Float2<T>)
        ensures
            r == (Float2 { x: self.x, y: self.y }),
    {
        Float2 { x: self.x, y: self.y }
    }

    /// Returns the vector (y, x) of this vector's components.
    pub fn yx(&self) -> (r: Float2<T>)
        ensures
            r == (Float2 { x: self.y, y: self.x }),
    {
        Float2 { x: self.y, y: self.x }
    }

    /// Returns the vector (y, y) of this vector's components.
    pub fn yy(&self) -> (r: Float2<T>)
        ensures
            r == (Float2 { x: self.y, y: self.y }),
    {
        Float2 { x: self.y, y: self.y }
    }

    /// Returns the vector (x, x, x) of this vector's components.
    pub fn xxx(&self) -> (r: Float3<T>)
        ensures
            r == (Float3 { x: self.x, y: self.x, z: self.x }),
    {
        Float3 { x: self.x, y: self.x, z: self.x }
    }

    /// Returns the vector (x, x, y) of this vector's components.
    pub fn xxy(&self) -> (r: Float3<T>)
        ensures
            r == (Float3 { x: self.x, y: self.x, z: self.y }),
    {
        Float3 { x: self.x, y: self.x, z: self.y }
    }

    /// Returns the vector (x, y, x) of this vector's components.
    pub fn xyx(&self) -> (r: Float3<T>)
        ensures
            r == (Float3 { x: self.x, y: self.y, z: self.x }),
    {
        Float3 { x: self.x, y: self.y, z: self.x }
    }

    /// Returns the vector (x, y, y) of this vector's components.
    pub fn xyy(&self) -> (r: Float3<T>)
        ensures
            r == (Float3 { x: self.x, y: self.y, z: self.y }),
    {
        Float3 { x: self.x, y: self.y, z: self.y }
    }

    /// Returns the vector (y, x, x) of this vector's components.
    pub fn yxx(&self) -> (r: Float3<T>)
        ensures
            r == (Float3 { x: self.y, y: self.x, z: self.x }),
    {
        Float3 { x: self.y, y: self.x, z: self.x }
    }

    /// Returns the vector (y, x, y) of this vector's components.
    pub fn yxy(&self) -> (r: Float3<T>)
        ensures
            r == (Float3 { x: self.y, y: self.x, z: self.y }),
    {
        Float3 { x: self.y, y: self.x, z: self.y }
    }

    /// Returns the vector (y, y, x) of this vector's components.
    pub fn yyx(&self) -> (r: Float3<T>)
        ensures
            r == (Float3 { x: self.y, y: self.y, z: self.x }),
    {
        Float3 { x: self.y, y: self.y, z: self.x }
    }

    /// Returns the vector (y, y, y) of this vector's components.
    pub fn yyy(&self) -> (r: Float3<T>)
        ensures
            r == (Float3 { x: self.y, y: self.y, z: self.y }),
    {
        Float3 { x: self.y, y: self.y, z: self.y }
    }

    /// Returns the vector (x, x, x, x) of this vector's components.
    pub fn xxxx(&self) -> (r: Float4<T>)
        ensures
            r == (Float4 { x: self.x, y: self.x, z: self.x, w: self.x }),
    {
        Float4 { x: self.x, y: self.x, z: self.x, w: self.x }
    }

    /// Returns the vector (x, x, x, y) of this vector's components.
    pub fn xxxy(&self) -> (r: Float4<T>)
        ensures
            r == (Float4 { x: self.x, y: self.x, z: self.x, w: self.y }),
    {
        Float4 { x: self.x, y: self.x, z: self.x, w: self.y }
    }

    /// Returns the vector (x, x, y, x) of this vector's components.
    pub fn xxyx(&self) -> (r: Float4<T>)
        ensures
            r == (Float4 { x: self.x, y: self.x, z: self.y, w: self.x }),
    {
        Float4 { x: self.x, y: self.x, z: self.y, w: self.x }
    }

    /// Returns the vector (x, x, y, y) of this vector's components.
    pub fn xxyy(&self) -> (r: Float4<T>)
        ensures
            r == (Float4 { x: self.x, y: self.x, z: self.y, w: self.y }),
    {
        Float4 { x: self.x, y: self.x, z: self.y, w: self.y }
    }

    /// Returns the vector (x, y, x, x) of this vector's components.
    pub fn xyxx(&self) -> (r: Float4<T>)
        ensures
            r == (Float4 { x: self.x, y: self.y, z: self.x, w: self.x }),
    {
        Float4 { x: self.x, y: self.y, z: self.x, w: self.x }
    }

    /// Returns the vector (x, y, x, y) of this vector's components.
    pub fn xyxy(&self) -> (r: Float4<T>)
        ensures
            r == (Float4 { x: self.x, y: self.y, z: self.x, w: self.y }),
    {
        Float4 { x: self.x, y: self.y, z: self.x, w: self.y }
    }

    /// Returns the vector (x, y, y, x) of this vector's components.
    pub fn xyyx(&self) -> (r: Float4<T>)
        ensures
            r == (Float4 { x: self.x, y: self.y, z: self.y, w: self.x }),
    {
        Float4 { x: self.x, y: self.y, z: self.y, w: self.x }
    }

    /// Returns the vector (x, y, y, y) of this vector's components.
    pub fn xyyy(&self) -> (r: Float4<T>)
        ensures
            r == (Float4 { x: self.x, y: self.y, z: self.y, w: self.y }),
    {
        Float4 { x: self.x, y: self.y, z: self.y, w: self.y }
    }

    /// Returns the vector (y, x, x, x) of this vector's components.
    pub fn yxxx(&self) -> (r: Float4<T>)
        ensures
            r == (Float4 { x: self.y, y: self.x, z: self.x, w: self.x }),
    {
        Float4 { x: self.y, y: self.x, z: self.x, w: self.x }
    }

    /// Returns the vector (y, x, x, y) of this vector's components.
    pub fn yxxy(&self) -> (r: Float4<T>)
        ensures
            r == (Float4 { x: self.y, y: self.x, z: self.x, w: self.y }),
    {
        Float4 { x: self.y, y: self.x, z: self.x, w: self.y }
    }

    /// Returns the vector (y, x, y, x) of this vector's components.
    pub fn yxyx(&self) -> (r: Float4<T>)
        ensures
            r == (Float4 { x: self.y, y: self.x, z: self.y, w: self.x }),
    {
        Float4 { x: self.y, y: self.x, z: self.y, w: self.x }
    }

    /// Returns the vector (y, x, y, y) of this vector's components.
    pub fn yxyy(&self) -> (r: Float4<T>)
        ensures
            r == (Float4 { x: self.y, y: self.x, z: self.y, w: self.y }),
    {
        Float4 { x: self.y, y: self.x, z: self.y, w: self.y }
    }

    /// Returns the vector (y, y, x, x) of this vector's components.
    pub fn yyxx(&self) -> (r: Float4<T>)
        ensures
            r == (Float4 { x: self.y, y: self.y, z: self.x, w: self.x }),
    {
        Float4 { x: self.y, y: self.y, z: self.x, w: self.x }
    }

    /// Returns the vector (y, y, x, y) of this vector's components.
    pub fn yyxy(&self) -> (r: Float4<T>)
        ensures
            r == (Float4 { x: self.y, y: self.y, z: self.x, w: self.y }),
    {
        Float4 { x: self.y, y: self.y, z: self.x, w: self.y }
    }

    /// Returns the vector (y, y, y, x) of this vector's components.
    pub fn yyyx(&self) -> (r: Float4<T>)
        ensures
            r == (Float4 { x: self.y, y: self.y, z: self.y, w: self.x }),
    {
        Float4 { x: self.y, y: self.y, z: self.y, w: self.x }
    }

    /// Returns the vector (y, y, y, y) of this vector's components.
    pub fn yyyy(&self) -> (r: Float4<T>)
        ensures
            r == (Float4 { x: self.y, y: self.y, z: self.y, w: self.y }),
    {
        Float4 { x: self.y, y: self.y, z: self.y, w: self.y }
    }
}

} // verus!
