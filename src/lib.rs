//! Fixed-size vectors of two, three and four components, with component-wise
//! arithmetic, equality, conversions and swizzle accessors.
//!
//! The component type is a parameter: the layout, the operators and the
//! swizzles do not depend on what a component is, and each contract states a
//! result in terms of the component type's own operations.

mod float2;
pub mod scalar;
mod float3;
mod float4;

pub use float2::Float2;
pub use float3::Float3;
pub use float4::Float4;
