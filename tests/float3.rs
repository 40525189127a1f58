use vecmath::Float2;
use vecmath::Float3;
use vecmath::Float4;

#[test]
fn float3_from() {
    let result = Float3::<f32>::new(1.5, 2.25, 0.9);
    assert_eq!(result.x, 1.5);
    assert_eq!(result.y, 2.25);
    assert_eq!(result.z, 0.9);
}

#[test]
fn float3_ops_add() {
    let a = Float3::<f32>::new(1.5, 2.25, 0.9);
    let b = Float3::<f32>::new(3.1, 2.75, 0.1);
    let result = a + b;
    assert_eq!(result.x, 4.6);
    assert_eq!(result.y, 5.0);
    assert_eq!(result.z, 1.0);
}

#[test]
fn float3_ops_add_f32() {
    let a = Float3::<f32>::new(1.0, 2.0, 0.5);
    let b = a + 0.5;
    assert_eq!(b, Float3::<f32>::new(1.5, 2.5, 1.0));
}

#[test]
fn float3_ops_add_assign() {
    let mut result = Float3::<f32>::new(1.5, 2.25, 0.9);
    let b = Float3::<f32>::new(3.1, 2.75, 0.1);
    result += b;
    assert_eq!(result.x, 4.6);
    assert_eq!(result.y, 5.0);
    assert_eq!(result.z, 1.0);
}

#[test]
fn float3_ops_add_assign_f32() {
    let mut a = Float3::<f32>::new(1.0, 2.0, 0.5);
    a += 0.5;
    assert_eq!(a, Float3::<f32>::new(1.5, 2.5, 1.0));
}

#[test]
fn float3_ops_sub() {
    let a = Float3::<f32>::new(1.5, 2.25, 2.0);
    let b = Float3::<f32>::new(3.1, 2.75, 1.0);
    let result = a - b;
    assert_eq!(result.x, -1.5999999);
    assert_eq!(result.y, -0.5);
    assert_eq!(result.z, 1.0);
}

#[test]
fn float3_ops_sub_f32() {
    let a = Float3::<f32>::new(1.0, 2.0, 4.0);
    let b = a - 0.5;
    assert_eq!(b, Float3::<f32>::new(0.5, 1.5, 3.5));
}

#[test]
fn float3_ops_sub_assign() {
    let mut result = Float3::<f32>::new(1.5, 2.25, 4.0);
    let b = Float3::<f32>::new(3.1, 2.75, 3.0);
    result -= b;
    assert_eq!(result.x, -1.5999999);
    assert_eq!(result.y, -0.5);
    assert_eq!(result.z, 1.0);
}

#[test]
fn float3_ops_sub_assign_f32() {
    let mut a = Float3::<f32>::new(1.0, 2.0, 4.0);
    a -= 0.5;
    assert_eq!(a, Float3::<f32>::new(0.5, 1.5, 3.5));
}

#[test]
fn float3_ops_mul() {
    let a = Float3::<f32>::new(1.5, 2.5, 5.0);
    let b = Float3::<f32>::new(3.0, 2.0, 5.0);
    let result = a * b;
    assert_eq!(result.x, 4.5);
    assert_eq!(result.y, 5.0);
    assert_eq!(result.z, 25.0);
}

#[test]
fn float3_ops_mul_f32() {
    let a = Float3::<f32>::new(1.0, 2.0, 3.0);
    let b = a * 0.5;
    assert_eq!(b, Float3::<f32>::new(0.5, 1.0, 1.5));
}

#[test]
fn float3_ops_mul_assign() {
    let mut result = Float3::<f32>::new(1.5, 2.5, 5.0);
    let b = Float3::<f32>::new(3.0, 2.0, 1.5);
    result *= b;
    assert_eq!(result.x, 4.5);
    assert_eq!(result.y, 5.0);
    assert_eq!(result.z, 7.5);
}

#[test]
fn float3_ops_mul_assign_f32() {
    let mut a = Float3::<f32>::new(1.0, 2.0, 3.0);
    a *= 0.5;
    assert_eq!(a, Float3::<f32>::new(0.5, 1.0, 1.5));
}

#[test]
fn float3_ops_div() {
    let a = Float3::<f32>::new(1.5, 2.5, 5.0);
    let b = Float3::<f32>::new(3.0, 2.0, 2.5);
    let result = a / b;
    assert_eq!(result.x, 0.5);
    assert_eq!(result.y, 1.25);
    assert_eq!(result.z, 2.0);
}

#[test]
fn float3_ops_div_f32() {
    let a = Float3::<f32>::new(1.0, 2.0, 5.0);
    let b = a / 0.5;
    assert_eq!(b, Float3::<f32>::new(2.0, 4.0, 10.0));
}

#[test]
fn float3_ops_div_assign() {
    let mut result = Float3::<f32>::new(1.5, 2.5, 5.0);
    let b = Float3::<f32>::new(3.0, 2.0, 2.5);
    result /= b;
    assert_eq!(result.x, 0.5);
    assert_eq!(result.y, 1.25);
    assert_eq!(result.z, 2.0);
}

#[test]
fn float3_ops_div_assign_f32() {
    let mut a = Float3::<f32>::new(1.0, 2.0, 5.0);
    a /= 0.5;
    assert_eq!(a, Float3::<f32>::new(2.0, 4.0, 10.0));
}

#[test]
fn float3_ops_neg() {
    let result = -Float3::<f32>::new(1.5, 2.5, 4.1);
    assert_eq!(result.x, -1.5);
    assert_eq!(result.y, -2.5);
    assert_eq!(result.z, -4.1);
}

#[test]
fn float3_equality() {
    let mut a = Float3::<f32>::new(20.0, 1.0, 5.0);
    let b = a;
    a += b;
    assert_eq!(a.x, 40.0);
    assert_eq!(a.y, 2.0);
    assert_eq!(a.z, 10.0);
    assert_eq!(b.x, 20.0);
    assert_eq!(b.y, 1.0);
    assert_eq!(b.z, 5.0);

    assert_eq!(a == b, false);

    assert_ne!(a, b);
    let a = Float3::<f32>::new(20.0, 1.0, 5.0);
    assert_eq!(a, b);

    assert_eq!(a == b, true);
    assert_eq!(a != b, false);
}

#[test]
fn float3_dot() {
    let a = Float3::<f32>::new(1.0, 1.0, 0.5);
    let b = Float3::<f32>::new(5.0, 5.0, 0.5);
    let result = a.dot(&b);
    assert_eq!(result, 10.25);
}

#[test]
fn float3_lerp() {
    let a = Float3::<f32>::new(0.0, 0.1, 0.5);
    let b = Float3::<f32>::new(2.0, 4.1, 1.0);
    assert_eq!(a.lerp(&b, 0.5), Float3::<f32>::new(1.0, 2.1, 0.75));
    assert_eq!(a.lerp(&b, 1.5), Float3::<f32>::new(3.0, 6.1, 1.25));
}

#[test]
fn float3_mad() {
    let a = Float3::<f32>::new(2.0, 2.0, 5.0);
    let b = Float3::<f32>::new(4.0, 5.0, 5.0);
    let c = Float3::<f32>::new(0.5, 0.25, 5.0);
    assert_eq!(a.mad(&b, &c), Float3::<f32>::new(8.5, 10.25, 30.0));
}

#[test]
fn float3_swizzle() {
    let x = 1.0;
    let y = 2.0;
    let z = 3.0;
    let a = Float3::<f32>::new(x, y, z);
    assert_eq!(a.xx(), Float2::<f32>::new(x, x));
    assert_eq!(a.xy(), Float2::<f32>::new(x, y));
    assert_eq!(a.xz(), Float2::<f32>::new(x, z));
    assert_eq!(a.yx(), Float2::<f32>::new(y, x));
    assert_eq!(a.yy(), Float2::<f32>::new(y, y));
    assert_eq!(a.yz(), Float2::<f32>::new(y, z));
    assert_eq!(a.zx(), Float2::<f32>::new(z, x));
    assert_eq!(a.zy(), Float2::<f32>::new(z, y));
    assert_eq!(a.zz(), Float2::<f32>::new(z, z));

    assert_eq!(a.xxx(), Float3::<f32>::new(x, x, x));
    assert_eq!(a.xxy(), Float3::<f32>::new(x, x, y));
    assert_eq!(a.xxz(), Float3::<f32>::new(x, x, z));
    assert_eq!(a.xyx(), Float3::<f32>::new(x, y, x));
    assert_eq!(a.xyy(), Float3::<f32>::new(x, y, y));
    assert_eq!(a.xyz(), Float3::<f32>::new(x, y, z));
    assert_eq!(a.xzx(), Float3::<f32>::new(x, z, x));
    assert_eq!(a.xzy(), Float3::<f32>::new(x, z, y));
    assert_eq!(a.xzz(), Float3::<f32>::new(x, z, z));
    assert_eq!(a.yxx(), Float3::<f32>::new(y, x, x));
    assert_eq!(a.yxy(), Float3::<f32>::new(y, x, y));
    assert_eq!(a.yxz(), Float3::<f32>::new(y, x, z));
    assert_eq!(a.yyx(), Float3::<f32>::new(y, y, x));
    assert_eq!(a.yyy(), Float3::<f32>::new(y, y, y));
    assert_eq!(a.yyz(), Float3::<f32>::new(y, y, z));
    assert_eq!(a.yzx(), Float3::<f32>::new(y, z, x));
    assert_eq!(a.yzy(), Float3::<f32>::new(y, z, y));
    assert_eq!(a.yzz(), Float3::<f32>::new(y, z, z));
    assert_eq!(a.zxx(), Float3::<f32>::new(z, x, x));
    assert_eq!(a.zxy(), Float3::<f32>::new(z, x, y));
    assert_eq!(a.zxz(), Float3::<f32>::new(z, x, z));
    assert_eq!(a.zyx(), Float3::<f32>::new(z, y, x));
    assert_eq!(a.zyy(), Float3::<f32>::new(z, y, y));
    assert_eq!(a.zyz(), Float3::<f32>::new(z, y, z));
    assert_eq!(a.zzx(), Float3::<f32>::new(z, z, x));
    assert_eq!(a.zzy(), Float3::<f32>::new(z, z, y));
    assert_eq!(a.zzz(), Float3::<f32>::new(z, z, z));

    assert_eq!(a.xxxx(), Float4::<f32>::new(x, x, x, x));
    assert_eq!(a.xxxy(), Float4::<f32>::new(x, x, x, y));
    assert_eq!(a.xxxz(), Float4::<f32>::new(x, x, x, z));
    assert_eq!(a.xxyx(), Float4::<f32>::new(x, x, y, x));
    assert_eq!(a.xxyy(), Float4::<f32>::new(x, x, y, y));
    assert_eq!(a.xxyz(), Float4::<f32>::new(x, x, y, z));
    assert_eq!(a.xxzx(), Float4::<f32>::new(x, x, z, x));
    assert_eq!(a.xxzy(), Float4::<f32>::new(x, x, z, y));
    assert_eq!(a.xxzz(), Float4::<f32>::new(x, x, z, z));
    assert_eq!(a.xyxx(), Float4::<f32>::new(x, y, x, x));
    assert_eq!(a.xyxy(), Float4::<f32>::new(x, y, x, y));
    assert_eq!(a.xyxz(), Float4::<f32>::new(x, y, x, z));
    assert_eq!(a.xyyx(), Float4::<f32>::new(x, y, y, x));
    assert_eq!(a.xyyy(), Float4::<f32>::new(x, y, y, y));
    assert_eq!(a.xyyz(), Float4::<f32>::new(x, y, y, z));
    assert_eq!(a.xyzx(), Float4::<f32>::new(x, y, z, x));
    assert_eq!(a.xyzy(), Float4::<f32>::new(x, y, z, y));
    assert_eq!(a.xyzz(), Float4::<f32>::new(x, y, z, z));
    assert_eq!(a.xzxx(), Float4::<f32>::new(x, z, x, x));
    assert_eq!(a.xzxy(), Float4::<f32>::new(x, z, x, y));
    assert_eq!(a.xzxz(), Float4::<f32>::new(x, z, x, z));
    assert_eq!(a.xzyx(), Float4::<f32>::new(x, z, y, x));
    assert_eq!(a.xzyy(), Float4::<f32>::new(x, z, y, y));
    assert_eq!(a.xzyz(), Float4::<f32>::new(x, z, y, z));
    assert_eq!(a.xzzx(), Float4::<f32>::new(x, z, z, x));
    assert_eq!(a.xzzy(), Float4::<f32>::new(x, z, z, y));
    assert_eq!(a.xzzz(), Float4::<f32>::new(x, z, z, z));
    assert_eq!(a.yxxx(), Float4::<f32>::new(y, x, x, x));
    assert_eq!(a.yxxy(), Float4::<f32>::new(y, x, x, y));
    assert_eq!(a.yxxz(), Float4::<f32>::new(y, x, x, z));
    assert_eq!(a.yxyx(), Float4::<f32>::new(y, x, y, x));
    assert_eq!(a.yxyy(), Float4::<f32>::new(y, x, y, y));
    assert_eq!(a.yxyz(), Float4::<f32>::new(y, x, y, z));
    assert_eq!(a.yxzx(), Float4::<f32>::new(y, x, z, x));
    assert_eq!(a.yxzy(), Float4::<f32>::new(y, x, z, y));
    assert_eq!(a.yxzz(), Float4::<f32>::new(y, x, z, z));
    assert_eq!(a.yyxx(), Float4::<f32>::new(y, y, x, x));
    assert_eq!(a.yyxy(), Float4::<f32>::new(y, y, x, y));
    assert_eq!(a.yyxz(), Float4::<f32>::new(y, y, x, z));
    assert_eq!(a.yyyx(), Float4::<f32>::new(y, y, y, x));
    assert_eq!(a.yyyy(), Float4::<f32>::new(y, y, y, y));
    assert_eq!(a.yyyz(), Float4::<f32>::new(y, y, y, z));
    assert_eq!(a.yyzx(), Float4::<f32>::new(y, y, z, x));
    assert_eq!(a.yyzy(), Float4::<f32>::new(y, y, z, y));
    assert_eq!(a.yyzz(), Float4::<f32>::new(y, y, z, z));
    assert_eq!(a.yzxx(), Float4::<f32>::new(y, z, x, x));
    assert_eq!(a.yzxy(), Float4::<f32>::new(y, z, x, y));
    assert_eq!(a.yzxz(), Float4::<f32>::new(y, z, x, z));
    assert_eq!(a.yzyx(), Float4::<f32>::new(y, z, y, x));
    assert_eq!(a.yzyy(), Float4::<f32>::new(y, z, y, y));
    assert_eq!(a.yzyz(), Float4::<f32>::new(y, z, y, z));
    assert_eq!(a.yzzx(), Float4::<f32>::new(y, z, z, x));
    assert_eq!(a.yzzy(), Float4::<f32>::new(y, z, z, y));
    assert_eq!(a.yzzz(), Float4::<f32>::new(y, z, z, z));
    assert_eq!(a.zxxx(), Float4::<f32>::new(z, x, x, x));
    assert_eq!(a.zxxy(), Float4::<f32>::new(z, x, x, y));
    assert_eq!(a.zxxz(), Float4::<f32>::new(z, x, x, z));
    assert_eq!(a.zxyx(), Float4::<f32>::new(z, x, y, x));
    assert_eq!(a.zxyy(), Float4::<f32>::new(z, x, y, y));
    assert_eq!(a.zxyz(), Float4::<f32>::new(z, x, y, z));
    assert_eq!(a.zxzx(), Float4::<f32>::new(z, x, z, x));
    assert_eq!(a.zxzy(), Float4::<f32>::new(z, x, z, y));
    assert_eq!(a.zxzz(), Float4::<f32>::new(z, x, z, z));
    assert_eq!(a.zyxx(), Float4::<f32>::new(z, y, x, x));
    assert_eq!(a.zyxy(), Float4::<f32>::new(z, y, x, y));
    assert_eq!(a.zyxz(), Float4::<f32>::new(z, y, x, z));
    assert_eq!(a.zyyx(), Float4::<f32>::new(z, y, y, x));
    assert_eq!(a.zyyy(), Float4::<f32>::new(z, y, y, y));
    assert_eq!(a.zyyz(), Float4::<f32>::new(z, y, y, z));
    assert_eq!(a.zyzx(), Float4::<f32>::new(z, y, z, x));
    assert_eq!(a.zyzy(), Float4::<f32>::new(z, y, z, y));
    assert_eq!(a.zyzz(), Float4::<f32>::new(z, y, z, z));
    assert_eq!(a.zzxx(), Float4::<f32>::new(z, z, x, x));
    assert_eq!(a.zzxy(), Float4::<f32>::new(z, z, x, y));
    assert_eq!(a.zzxz(), Float4::<f32>::new(z, z, x, z));
    assert_eq!(a.zzyx(), Float4::<f32>::new(z, z, y, x));
    assert_eq!(a.zzyy(), Float4::<f32>::new(z, z, y, y));
    assert_eq!(a.zzyz(), Float4::<f32>::new(z, z, y, z));
    assert_eq!(a.zzzx(), Float4::<f32>::new(z, z, z, x));
    assert_eq!(a.zzzy(), Float4::<f32>::new(z, z, z, y));
    assert_eq!(a.zzzz(), Float4::<f32>::new(z, z, z, z));
}
