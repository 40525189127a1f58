use vstd::prelude::*;
use vstd::std_specs::ops::AddSpec;
use vstd::std_specs::ops::SubSpec;
use vstd::std_specs::ops::MulSpec;

verus! {

/// `r` is a result that the scalar type's `a * b + c` can give.
pub open spec fn mad_of<T: Copy + core::ops::Add<Output = T> + core::ops::Mul<Output = T>>(
    a: T,
    b: T,
    c: T,
    r: T,
) -> bool {
    exists|p: T| #[trigger] call_ensures(T::mul, (a, b), p) && call_ensures(T::add, (p, c), r)
}

/// The scalar type can evaluate `a * b + c`: neither step is out of its domain.
pub open spec fn mad_req<T: Copy + core::ops::Add<Output = T> + core::ops::Mul<Output = T>>(
    a: T,
    b: T,
    c: T,
) -> bool {
    &&& a.mul_req(b)
    &&& forall|p: T| #[trigger] call_ensures(T::mul, (a, b), p) ==> p.add_req(c)
}

/// `r` is a result that the scalar type's `a + t * (b - a)` can give.
pub open spec fn lerp_of<T: Copy + core::ops::Add<Output = T> + core::ops::Sub<Output = T> + core::ops::Mul<Output = T>>(
    a: T,
    b: T,
    t: T,
    r: T,
) -> bool {
    exists|d: T, e: T|
        #[trigger] call_ensures(T::sub, (b, a), d) && #[trigger] call_ensures(T::mul, (t, d), e)
            && call_ensures(T::add, (a, e), r)
}

/// The scalar type can evaluate `a + t * (b - a)`.
pub open spec fn lerp_req<T: Copy + core::ops::Add<Output = T> + core::ops::Sub<Output = T> + core::ops::Mul<Output = T>>(
    a: T,
    b: T,
    t: T,
) -> bool {
    &&& b.sub_req(a)
    &&& forall|d: T| #[trigger] call_ensures(T::sub, (b, a), d) ==> t.mul_req(d)
    &&& forall|d: T, e: T|
        #[trigger] call_ensures(T::sub, (b, a), d) && #[trigger] call_ensures(T::mul, (t, d), e)
            ==> a.add_req(e)
}

/// `r` is a result that the scalar type's `acc + a * b` can give.
pub open spec fn product_add_of<T: Copy + core::ops::Add<Output = T> + core::ops::Mul<Output = T>>(
    acc: T,
    a: T,
    b: T,
    r: T,
) -> bool {
    exists|p: T| #[trigger] call_ensures(T::mul, (a, b), p) && call_ensures(T::add, (acc, p), r)
}

/// The scalar type can evaluate `acc + a * b`.
pub open spec fn product_add_req<T: Copy + core::ops::Add<Output = T> + core::ops::Mul<Output = T>>(
    acc: T,
    a: T,
    b: T,
) -> bool {
    &&& a.mul_req(b)
    &&& forall|p: T| #[trigger] call_ensures(T::mul, (a, b), p) ==> acc.add_req(p)
}

/// Computes `acc + a * b` in the scalar type: one step of a dot product.
pub fn product_add<T: Copy + core::ops::Add<Output = T> + core::ops::Mul<Output = T>>(
    acc: T,
    a: T,
    b: T,
) -> (r: T)
    requires
        product_add_req(acc, a, b),
    ensures
        product_add_of(acc, a, b, r),
{
    let p = a * b;
    acc + p
}

/// Computes `a * b + c` in the scalar type.
pub fn mad<T: Copy + core::ops::Add<Output = T> + core::ops::Mul<Output = T>>(a: T, b: T, c: T) -> (r: T)
    requires
        mad_req(a, b, c),
    ensures
        mad_of(a, b, c, r),
{
    let p = a * b;
    p + c
}

/// Computes `a + t * (b - a)` in the scalar type.
pub fn lerp<T: Copy + core::ops::Add<Output = T> + core::ops::Sub<Output = T> + core::ops::Mul<Output = T>>(
    a: T,
    b: T,
    t: T,
) -> (r: T)
    requires
        lerp_req(a, b, t),
    ensures
        lerp_of(a, b, t, r),
{
    let d = b - a;
    let e = t * d;
    a + e
}

} // verus!
