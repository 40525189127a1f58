use vecmath::Float2;
use vecmath::Float3;
use vecmath::Float4;

#[test]
fn float4_from() {
    let result = Float4::<f32>::new(1.5, 2.25, 0.9, 0.5);
    assert_eq!(result.x, 1.5);
    assert_eq!(result.y, 2.25);
    assert_eq!(result.z, 0.9);
    assert_eq!(result.w, 0.5);
}

#[test]
fn float4_ops_add() {
    let a = Float4::<f32>::new(1.5, 2.25, 0.9, 0.6);
    let b = Float4::<f32>::new(3.1, 2.75, 0.1, 0.2);
    let result = a + b;
    assert_eq!(result.x, 4.6);
    assert_eq!(result.y, 5.0);
    assert_eq!(result.z, 1.0);
    assert_eq!(result.w, 0.8);
}

#[test]
fn float4_ops_add_f32() {
    let a = Float4::<f32>::new(1.0, 2.0, 0.5, 0.2);
    let b = a + 0.5;
    assert_eq!(b, Float4::<f32>::new(1.5, 2.5, 1.0, 0.7));
}

#[test]
fn float4_ops_add_assign() {
    let mut result = Float4::<f32>::new(1.5, 2.25, 0.9, 0.5);
    let b = Float4::<f32>::new(3.1, 2.75, 0.1, 0.5);
    result += b;
    assert_eq!(result.x, 4.6);
    assert_eq!(result.y, 5.0);
    assert_eq!(result.z, 1.0);
    assert_eq!(result.w, 1.0);
}

#[test]
fn float4_ops_add_assign_f32() {
    let mut a = Float4::<f32>::new(1.0, 2.0, 0.5, 0.2);
    a += 0.5;
    assert_eq!(a, Float4::<f32>::new(1.5, 2.5, 1.0, 0.7));
}

#[test]
fn float4_ops_sub() {
    let a = Float4::<f32>::new(1.5, 2.25, 2.0, 2.0);
    let b = Float4::<f32>::new(3.1, 2.75, 1.0, 4.0);
    let result = a - b;
    assert_eq!(result.x, -1.5999999);
    assert_eq!(result.y, -0.5);
    assert_eq!(result.z, 1.0);
    assert_eq!(result.w, -2.0);
}

#[test]
fn float4_ops_sub_f32() {
    let a = Float4::<f32>::new(1.0, 2.0, 4.0, 8.0);
    let b = a - 0.5;
    assert_eq!(b, Float4::<f32>::new(0.5, 1.5, 3.5, 7.5));
}

#[test]
fn float4_ops_sub_assign() {
    let mut result = Float4::<f32>::new(1.5, 2.25, 4.0, 2.0);
    let b = Float4::<f32>::new(3.1, 2.75, 3.0, 1.0);
    result -= b;
    assert_eq!(result.x, -1.5999999);
    assert_eq!(result.y, -0.5);
    assert_eq!(result.z, 1.0);
    assert_eq!(result.w, 1.0);
}

#[test]
fn float4_ops_sub_assign_f32() {
    let mut a = Float4::<f32>::new(1.0, 2.0, 4.0, 8.0);
    a -= 0.5;
    assert_eq!(a, Float4::<f32>::new(0.5, 1.5, 3.5, 7.5));
}

#[test]
fn float4_ops_mul() {
    let a = Float4::<f32>::new(1.5, 2.5, 5.0, 2.0);
    let b = Float4::<f32>::new(3.0, 2.0, 5.0, 2.0);
    let result = a * b;
    assert_eq!(result.x, 4.5);
    assert_eq!(result.y, 5.0);
    assert_eq!(result.z, 25.0);
    assert_eq!(result.w, 4.0);
}

#[test]
fn float4_ops_mul_f32() {
    let a = Float4::<f32>::new(1.0, 2.0, 3.0, 4.0);
    let b = a * 0.5;
    assert_eq!(b, Float4::<f32>::new(0.5, 1.0, 1.5, 2.0));
}

#[test]
fn float4_ops_mul_assign() {
    let mut result = Float4::<f32>::new(1.5, 2.5, 5.0, 3.0);
    let b = Float4::<f32>::new(3.0, 2.0, 1.5, 3.0);
    result *= b;
    assert_eq!(result.x, 4.5);
    assert_eq!(result.y, 5.0);
    assert_eq!(result.z, 7.5);
    assert_eq!(result.w, 9.0);
}

#[test]
fn float4_ops_mul_assign_f32() {
    let mut a = Float4::<f32>::new(1.0, 2.0, 3.0, 4.0);
    a *= 0.5;
    assert_eq!(a, Float4::<f32>::new(0.5, 1.0, 1.5, 2.0));
}

#[test]
fn float4_ops_div() {
    let a = Float4::<f32>::new(1.5, 2.5, 5.0, 6.0);
    let b = Float4::<f32>::new(3.0, 2.0, 2.5, 2.0);
    let result = a / b;
    assert_eq!(result.x, 0.5);
    assert_eq!(result.y, 1.25);
    assert_eq!(result.z, 2.0);
    assert_eq!(result.w, 3.0);
}

#[test]
fn float4_ops_div_f32() {
    let a = Float4::<f32>::new(1.0, 2.0, 5.0, 6.0);
    let b = a / 0.5;
    assert_eq!(b, Float4::<f32>::new(2.0, 4.0, 10.0, 12.0));
}

#[test]
fn float4_ops_div_assign() {
    let mut result = Float4::<f32>::new(1.5, 2.5, 5.0, 6.0);
    let b = Float4::<f32>::new(3.0, 2.0, 2.5, 2.0);
    result /= b;
    assert_eq!(result.x, 0.5);
    assert_eq!(result.y, 1.25);
    assert_eq!(result.z, 2.0);
    assert_eq!(result.w, 3.0);
}

#[test]
fn float4_ops_div_assign_f32() {
    let mut a = Float4::<f32>::new(1.0, 2.0, 5.0, 6.0);
    a /= 0.5;
    assert_eq!(a, Float4::<f32>::new(2.0, 4.0, 10.0, 12.0));
}

#[test]
fn float4_ops_neg() {
    let result = -Float4::<f32>::new(1.5, 2.5, 4.1, -2.0);
    assert_eq!(result.x, -1.5);
    assert_eq!(result.y, -2.5);
    assert_eq!(result.z, -4.1);
    assert_eq!(result.w, 2.0);
}

#[test]
fn float4_equality() {
    let mut a = Float4::<f32>::new(20.0, 1.0, 5.0, 3.0);
    let b = a;
    a += b;
    assert_eq!(a.x, 40.0);
    assert_eq!(a.y, 2.0);
    assert_eq!(a.z, 10.0);
    assert_eq!(a.w, 6.0);
    assert_eq!(b.x, 20.0);
    assert_eq!(b.y, 1.0);
    assert_eq!(b.z, 5.0);
    assert_eq!(b.w, 3.0);

    assert_eq!(a == b, false);

    assert_ne!(a, b);
    let a = Float4::<f32>::new(20.0, 1.0, 5.0, 3.0);
    assert_eq!(a, b);

    assert_eq!(a == b, true);
    assert_eq!(a != b, false);
}

#[test]
fn float4_dot() {
    let a = Float4::<f32>::new(1.0, 1.0, 0.5, 0.25);
    let b = Float4::<f32>::new(5.0, 5.0, 0.5, 0.25);
    let result = a.dot(&b);
    assert_eq!(result, 10.3125);
}

#[test]
fn float4_lerp() {
    let a = Float4::<f32>::new(0.0, 0.1, 0.5, 1.0);
    let b = Float4::<f32>::new(2.0, 4.1, 1.0, 2.0);
    assert_eq!(a.lerp(&b, 0.5), Float4::<f32>::new(1.0, 2.1, 0.75, 1.5));
    assert_eq!(a.lerp(&b, 1.5), Float4::<f32>::new(3.0, 6.1, 1.25, 2.5));
}

#[test]
fn float4_mad() {
    let a = Float4::<f32>::new(2.0, 2.0, 5.0, 2.0);
    let b = Float4::<f32>::new(4.0, 5.0, 5.0, 2.0);
    let c = Float4::<f32>::new(0.5, 0.25, 5.0, 3.0);
    assert_eq!(a.mad(&b, &c), Float4::<f32>::new(8.5, 10.25, 30.0, 7.0));
}

#[test]
fn float4_swizzle() {
    let x = 1.0;
    let y = 2.0;
    let z = 3.0;
    let w = 4.0;
    let a = Float4::<f32>::new(x, y, z, w);

    assert_eq!(a.xx(), Float2::<f32>::new(x, x));
    assert_eq!(a.xy(), Float2::<f32>::new(x, y));
    assert_eq!(a.xz(), Float2::<f32>::new(x, z));
    assert_eq!(a.xw(), Float2::<f32>::new(x, w));
    assert_eq!(a.yx(), Float2::<f32>::new(y, x));
    assert_eq!(a.yy(), Float2::<f32>::new(y, y));
    assert_eq!(a.yz(), Float2::<f32>::new(y, z));
    assert_eq!(a.yw(), Float2::<f32>::new(y, w));
    assert_eq!(a.zx(), Float2::<f32>::new(z, x));
    assert_eq!(a.zy(), Float2::<f32>::new(z, y));
    assert_eq!(a.zz(), Float2::<f32>::new(z, z));
    assert_eq!(a.zw(), Float2::<f32>::new(z, w));
    assert_eq!(a.wx(), Float2::<f32>::new(w, x));
    assert_eq!(a.wy(), Float2::<f32>::new(w, y));
    assert_eq!(a.wz(), Float2::<f32>::new(w, z));
    assert_eq!(a.ww(), Float2::<f32>::new(w, w));

    assert_eq!(a.xxx(), Float3::<f32>::new(x, x, x));
    assert_eq!(a.xxy(), Float3::<f32>::new(x, x, y));
    assert_eq!(a.xxz(), Float3::<f32>::new(x, x, z));
    assert_eq!(a.xxw(), Float3::<f32>::new(x, x, w));
    assert_eq!(a.xyx(), Float3::<f32>::new(x, y, x));
    assert_eq!(a.xyy(), Float3::<f32>::new(x, y, y));
    assert_eq!(a.xyz(), Float3::<f32>::new(x, y, z));
    assert_eq!(a.xyw(), Float3::<f32>::new(x, y, w));
    assert_eq!(a.xzx(), Float3::<f32>::new(x, z, x));
    assert_eq!(a.xzy(), Float3::<f32>::new(x, z, y));
    assert_eq!(a.xzz(), Float3::<f32>::new(x, z, z));
    assert_eq!(a.xzw(), Float3::<f32>::new(x, z, w));
    assert_eq!(a.xwx(), Float3::<f32>::new(x, w, x));
    assert_eq!(a.xwy(), Float3::<f32>::new(x, w, y));
    assert_eq!(a.xwz(), Float3::<f32>::new(x, w, z));
    assert_eq!(a.xww(), Float3::<f32>::new(x, w, w));
    assert_eq!(a.yxx(), Float3::<f32>::new(y, x, x));
    assert_eq!(a.yxy(), Float3::<f32>::new(y, x, y));
    assert_eq!(a.yxz(), Float3::<f32>::new(y, x, z));
    assert_eq!(a.yxw(), Float3::<f32>::new(y, x, w));
    assert_eq!(a.yyx(), Float3::<f32>::new(y, y, x));
    assert_eq!(a.yyy(), Float3::<f32>::new(y, y, y));
    assert_eq!(a.yyz(), Float3::<f32>::new(y, y, z));
    assert_eq!(a.yyw(), Float3::<f32>::new(y, y, w));
    assert_eq!(a.yzx(), Float3::<f32>::new(y, z, x));
    assert_eq!(a.yzy(), Float3::<f32>::new(y, z, y));
    assert_eq!(a.yzz(), Float3::<f32>::new(y, z, z));
    assert_eq!(a.yzw(), Float3::<f32>::new(y, z, w));
    assert_eq!(a.ywx(), Float3::<f32>::new(y, w, x));
    assert_eq!(a.ywy(), Float3::<f32>::new(y, w, y));
    assert_eq!(a.ywz(), Float3::<f32>::new(y, w, z));
    assert_eq!(a.yww(), Float3::<f32>::new(y, w, w));
    assert_eq!(a.zxx(), Float3::<f32>::new(z, x, x));
    assert_eq!(a.zxy(), Float3::<f32>::new(z, x, y));
    assert_eq!(a.zxz(), Float3::<f32>::new(z, x, z));
    assert_eq!(a.zxw(), Float3::<f32>::new(z, x, w));
    assert_eq!(a.zyx(), Float3::<f32>::new(z, y, x));
    assert_eq!(a.zyy(), Float3::<f32>::new(z, y, y));
    assert_eq!(a.zyz(), Float3::<f32>::new(z, y, z));
    assert_eq!(a.zyw(), Float3::<f32>::new(z, y, w));
    assert_eq!(a.zzx(), Float3::<f32>::new(z, z, x));
    assert_eq!(a.zzy(), Float3::<f32>::new(z, z, y));
    assert_eq!(a.zzz(), Float3::<f32>::new(z, z, z));
    assert_eq!(a.zzw(), Float3::<f32>::new(z, z, w));
    assert_eq!(a.zwx(), Float3::<f32>::new(z, w, x));
    assert_eq!(a.zwy(), Float3::<f32>::new(z, w, y));
    assert_eq!(a.zwz(), Float3::<f32>::new(z, w, z));
    assert_eq!(a.zww(), Float3::<f32>::new(z, w, w));
    assert_eq!(a.wxx(), Float3::<f32>::new(w, x, x));
    assert_eq!(a.wxy(), Float3::<f32>::new(w, x, y));
    assert_eq!(a.wxz(), Float3::<f32>::new(w, x, z));
    assert_eq!(a.wxw(), Float3::<f32>::new(w, x, w));
    assert_eq!(a.wyx(), Float3::<f32>::new(w, y, x));
    assert_eq!(a.wyy(), Float3::<f32>::new(w, y, y));
    assert_eq!(a.wyz(), Float3::<f32>::new(w, y, z));
    assert_eq!(a.wyw(), Float3::<f32>::new(w, y, w));
    assert_eq!(a.wzx(), Float3::<f32>::new(w, z, x));
    assert_eq!(a.wzy(), Float3::<f32>::new(w, z, y));
    assert_eq!(a.wzz(), Float3::<f32>::new(w, z, z));
    assert_eq!(a.wzw(), Float3::<f32>::new(w, z, w));
    assert_eq!(a.wwx(), Float3::<f32>::new(w, w, x));
    assert_eq!(a.wwy(), Float3::<f32>::new(w, w, y));
    assert_eq!(a.wwz(), Float3::<f32>::new(w, w, z));
    assert_eq!(a.www(), Float3::<f32>::new(w, w, w));

    assert_eq!(a.xxxx(), Float4::<f32>::new(x, x, x, x));
    assert_eq!(a.xxxy(), Float4::<f32>::new(x, x, x, y));
    assert_eq!(a.xxxz(), Float4::<f32>::new(x, x, x, z));
    assert_eq!(a.xxxw(), Float4::<f32>::new(x, x, x, w));
    assert_eq!(a.xxyx(), Float4::<f32>::new(x, x, y, x));
    assert_eq!(a.xxyy(), Float4::<f32>::new(x, x, y, y));
    assert_eq!(a.xxyz(), Float4::<f32>::new(x, x, y, z));
    assert_eq!(a.xxyw(), Float4::<f32>::new(x, x, y, w));
    assert_eq!(a.xxzx(), Float4::<f32>::new(x, x, z, x));
    assert_eq!(a.xxzy(), Float4::<f32>::new(x, x, z, y));
    assert_eq!(a.xxzz(), Float4::<f32>::new(x, x, z, z));
    assert_eq!(a.xxzw(), Float4::<f32>::new(x, x, z, w));
    assert_eq!(a.xxwx(), Float4::<f32>::new(x, x, w, x));
    assert_eq!(a.xxwy(), Float4::<f32>::new(x, x, w, y));
    assert_eq!(a.xxwz(), Float4::<f32>::new(x, x, w, z));
    assert_eq!(a.xxww(), Float4::<f32>::new(x, x, w, w));
    assert_eq!(a.xyxx(), Float4::<f32>::new(x, y, x, x));
    assert_eq!(a.xyxy(), Float4::<f32>::new(x, y, x, y));
    assert_eq!(a.xyxz(), Float4::<f32>::new(x, y, x, z));
    assert_eq!(a.xyxw(), Float4::<f32>::new(x, y, x, w));
    assert_eq!(a.xyyx(), Float4::<f32>::new(x, y, y, x));
    assert_eq!(a.xyyy(), Float4::<f32>::new(x, y, y, y));
    assert_eq!(a.xyyz(), Float4::<f32>::new(x, y, y, z));
    assert_eq!(a.xyyw(), Float4::<f32>::new(x, y, y, w));
    assert_eq!(a.xyzx(), Float4::<f32>::new(x, y, z, x));
    assert_eq!(a.xyzy(), Float4::<f32>::new(x, y, z, y));
    assert_eq!(a.xyzz(), Float4::<f32>::new(x, y, z, z));
    assert_eq!(a.xyzw(), Float4::<f32>::new(x, y, z, w));
    assert_eq!(a.xywx(), Float4::<f32>::new(x, y, w, x));
    assert_eq!(a.xywy(), Float4::<f32>::new(x, y, w, y));
    assert_eq!(a.xywz(), Float4::<f32>::new(x, y, w, z));
    assert_eq!(a.xyww(), Float4::<f32>::new(x, y, w, w));
    assert_eq!(a.xzxx(), Float4::<f32>::new(x, z, x, x));
    assert_eq!(a.xzxy(), Float4::<f32>::new(x, z, x, y));
    assert_eq!(a.xzxz(), Float4::<f32>::new(x, z, x, z));
    assert_eq!(a.xzxw(), Float4::<f32>::new(x, z, x, w));
    assert_eq!(a.xzyx(), Float4::<f32>::new(x, z, y, x));
    assert_eq!(a.xzyy(), Float4::<f32>::new(x, z, y, y));
    assert_eq!(a.xzyz(), Float4::<f32>::new(x, z, y, z));
    assert_eq!(a.xzyw(), Float4::<f32>::new(x, z, y, w));
    assert_eq!(a.xzzx(), Float4::<f32>::new(x, z, z, x));
    assert_eq!(a.xzzy(), Float4::<f32>::new(x, z, z, y));
    assert_eq!(a.xzzz(), Float4::<f32>::new(x, z, z, z));
    assert_eq!(a.xzzw(), Float4::<f32>::new(x, z, z, w));
    assert_eq!(a.xzwx(), Float4::<f32>::new(x, z, w, x));
    assert_eq!(a.xzwy(), Float4::<f32>::new(x, z, w, y));
    assert_eq!(a.xzwz(), Float4::<f32>::new(x, z, w, z));
    assert_eq!(a.xzww(), Float4::<f32>::new(x, z, w, w));
    assert_eq!(a.xwxx(), Float4::<f32>::new(x, w, x, x));
    assert_eq!(a.xwxy(), Float4::<f32>::new(x, w, x, y));
    assert_eq!(a.xwxz(), Float4::<f32>::new(x, w, x, z));
    assert_eq!(a.xwxw(), Float4::<f32>::new(x, w, x, w));
    assert_eq!(a.xwyx(), Float4::<f32>::new(x, w, y, x));
    assert_eq!(a.xwyy(), Float4::<f32>::new(x, w, y, y));
    assert_eq!(a.xwyz(), Float4::<f32>::new(x, w, y, z));
    assert_eq!(a.xwyw(), Float4::<f32>::new(x, w, y, w));
    assert_eq!(a.xwzx(), Float4::<f32>::new(x, w, z, x));
    assert_eq!(a.xwzy(), Float4::<f32>::new(x, w, z, y));
    assert_eq!(a.xwzz(), Float4::<f32>::new(x, w, z, z));
    assert_eq!(a.xwzw(), Float4::<f32>::new(x, w, z, w));
    assert_eq!(a.xwwx(), Float4::<f32>::new(x, w, w, x));
    assert_eq!(a.xwwy(), Float4::<f32>::new(x, w, w, y));
    assert_eq!(a.xwwz(), Float4::<f32>::new(x, w, w, z));
    assert_eq!(a.xwww(), Float4::<f32>::new(x, w, w, w));
    assert_eq!(a.yxxx(), Float4::<f32>::new(y, x, x, x));
    assert_eq!(a.yxxy(), Float4::<f32>::new(y, x, x, y));
    assert_eq!(a.yxxz(), Float4::<f32>::new(y, x, x, z));
    assert_eq!(a.yxxw(), Float4::<f32>::new(y, x, x, w));
    assert_eq!(a.yxyx(), Float4::<f32>::new(y, x, y, x));
    assert_eq!(a.yxyy(), Float4::<f32>::new(y, x, y, y));
    assert_eq!(a.yxyz(), Float4::<f32>::new(y, x, y, z));
    assert_eq!(a.yxyw(), Float4::<f32>::new(y, x, y, w));
    assert_eq!(a.yxzx(), Float4::<f32>::new(y, x, z, x));
    assert_eq!(a.yxzy(), Float4::<f32>::new(y, x, z, y));
    assert_eq!(a.yxzz(), Float4::<f32>::new(y, x, z, z));
    assert_eq!(a.yxzw(), Float4::<f32>::new(y, x, z, w));
    assert_eq!(a.yxwx(), Float4::<f32>::new(y, x, w, x));
    assert_eq!(a.yxwy(), Float4::<f32>::new(y, x, w, y));
    assert_eq!(a.yxwz(), Float4::<f32>::new(y, x, w, z));
    assert_eq!(a.yxww(), Float4::<f32>::new(y, x, w, w));
    assert_eq!(a.yyxx(), Float4::<f32>::new(y, y, x, x));
    assert_eq!(a.yyxy(), Float4::<f32>::new(y, y, x, y));
    assert_eq!(a.yyxz(), Float4::<f32>::new(y, y, x, z));
    assert_eq!(a.yyxw(), Float4::<f32>::new(y, y, x, w));
    assert_eq!(a.yyyx(), Float4::<f32>::new(y, y, y, x));
    assert_eq!(a.yyyy(), Float4::<f32>::new(y, y, y, y));
    assert_eq!(a.yyyz(), Float4::<f32>::new(y, y, y, z));
    assert_eq!(a.yyyw(), Float4::<f32>::new(y, y, y, w));
    assert_eq!(a.yyzx(), Float4::<f32>::new(y, y, z, x));
    assert_eq!(a.yyzy(), Float4::<f32>::new(y, y, z, y));
    assert_eq!(a.yyzz(), Float4::<f32>::new(y, y, z, z));
    assert_eq!(a.yyzw(), Float4::<f32>::new(y, y, z, w));
    assert_eq!(a.yywx(), Float4::<f32>::new(y, y, w, x));
    assert_eq!(a.yywy(), Float4::<f32>::new(y, y, w, y));
    assert_eq!(a.yywz(), Float4::<f32>::new(y, y, w, z));
    assert_eq!(a.yyww(), Float4::<f32>::new(y, y, w, w));
    assert_eq!(a.yzxx(), Float4::<f32>::new(y, z, x, x));
    assert_eq!(a.yzxy(), Float4::<f32>::new(y, z, x, y));
    assert_eq!(a.yzxz(), Float4::<f32>::new(y, z, x, z));
    assert_eq!(a.yzxw(), Float4::<f32>::new(y, z, x, w));
    assert_eq!(a.yzyx(), Float4::<f32>::new(y, z, y, x));
    assert_eq!(a.yzyy(), Float4::<f32>::new(y, z, y, y));
    assert_eq!(a.yzyz(), Float4::<f32>::new(y, z, y, z));
    assert_eq!(a.yzyw(), Float4::<f32>::new(y, z, y, w));
    assert_eq!(a.yzzx(), Float4::<f32>::new(y, z, z, x));
    assert_eq!(a.yzzy(), Float4::<f32>::new(y, z, z, y));
    assert_eq!(a.yzzz(), Float4::<f32>::new(y, z, z, z));
    assert_eq!(a.yzzw(), Float4::<f32>::new(y, z, z, w));
    assert_eq!(a.yzwx(), Float4::<f32>::new(y, z, w, x));
    assert_eq!(a.yzwy(), Float4::<f32>::new(y, z, w, y));
    assert_eq!(a.yzwz(), Float4::<f32>::new(y, z, w, z));
    assert_eq!(a.yzww(), Float4::<f32>::new(y, z, w, w));
    assert_eq!(a.ywxx(), Float4::<f32>::new(y, w, x, x));
    assert_eq!(a.ywxy(), Float4::<f32>::new(y, w, x, y));
    assert_eq!(a.ywxz(), Float4::<f32>::new(y, w, x, z));
    assert_eq!(a.ywxw(), Float4::<f32>::new(y, w, x, w));
    assert_eq!(a.ywyx(), Float4::<f32>::new(y, w, y, x));
    assert_eq!(a.ywyy(), Float4::<f32>::new(y, w, y, y));
    assert_eq!(a.ywyz(), Float4::<f32>::new(y, w, y, z));
    assert_eq!(a.ywyw(), Float4::<f32>::new(y, w, y, w));
    assert_eq!(a.ywzx(), Float4::<f32>::new(y, w, z, x));
    assert_eq!(a.ywzy(), Float4::<f32>::new(y, w, z, y));
    assert_eq!(a.ywzz(), Float4::<f32>::new(y, w, z, z));
    assert_eq!(a.ywzw(), Float4::<f32>::new(y, w, z, w));
    assert_eq!(a.ywwx(), Float4::<f32>::new(y, w, w, x));
    assert_eq!(a.ywwy(), Float4::<f32>::new(y, w, w, y));
    assert_eq!(a.ywwz(), Float4::<f32>::new(y, w, w, z));
    assert_eq!(a.ywww(), Float4::<f32>::new(y, w, w, w));
    assert_eq!(a.zxxx(), Float4::<f32>::new(z, x, x, x));
    assert_eq!(a.zxxy(), Float4::<f32>::new(z, x, x, y));
    assert_eq!(a.zxxz(), Float4::<f32>::new(z, x, x, z));
    assert_eq!(a.zxxw(), Float4::<f32>::new(z, x, x, w));
    assert_eq!(a.zxyx(), Float4::<f32>::new(z, x, y, x));
    assert_eq!(a.zxyy(), Float4::<f32>::new(z, x, y, y));
    assert_eq!(a.zxyz(), Float4::<f32>::new(z, x, y, z));
    assert_eq!(a.zxyw(), Float4::<f32>::new(z, x, y, w));
    assert_eq!(a.zxzx(), Float4::<f32>::new(z, x, z, x));
    assert_eq!(a.zxzy(), Float4::<f32>::new(z, x, z, y));
    assert_eq!(a.zxzz(), Float4::<f32>::new(z, x, z, z));
    assert_eq!(a.zxzw(), Float4::<f32>::new(z, x, z, w));
    assert_eq!(a.zxwx(), Float4::<f32>::new(z, x, w, x));
    assert_eq!(a.zxwy(), Float4::<f32>::new(z, x, w, y));
    assert_eq!(a.zxwz(), Float4::<f32>::new(z, x, w, z));
    assert_eq!(a.zxww(), Float4::<f32>::new(z, x, w, w));
    assert_eq!(a.zyxx(), Float4::<f32>::new(z, y, x, x));
    assert_eq!(a.zyxy(), Float4::<f32>::new(z, y, x, y));
    assert_eq!(a.zyxz(), Float4::<f32>::new(z, y, x, z));
    assert_eq!(a.zyxw(), Float4::<f32>::new(z, y, x, w));
    assert_eq!(a.zyyx(), Float4::<f32>::new(z, y, y, x));
    assert_eq!(a.zyyy(), Float4::<f32>::new(z, y, y, y));
    assert_eq!(a.zyyz(), Float4::<f32>::new(z, y, y, z));
    assert_eq!(a.zyyw(), Float4::<f32>::new(z, y, y, w));
    assert_eq!(a.zyzx(), Float4::<f32>::new(z, y, z, x));
    assert_eq!(a.zyzy(), Float4::<f32>::new(z, y, z, y));
    assert_eq!(a.zyzz(), Float4::<f32>::new(z, y, z, z));
    assert_eq!(a.zyzw(), Float4::<f32>::new(z, y, z, w));
    assert_eq!(a.zywx(), Float4::<f32>::new(z, y, w, x));
    assert_eq!(a.zywy(), Float4::<f32>::new(z, y, w, y));
    assert_eq!(a.zywz(), Float4::<f32>::new(z, y, w, z));
    assert_eq!(a.zyww(), Float4::<f32>::new(z, y, w, w));
    assert_eq!(a.zzxx(), Float4::<f32>::new(z, z, x, x));
    assert_eq!(a.zzxy(), Float4::<f32>::new(z, z, x, y));
    assert_eq!(a.zzxz(), Float4::<f32>::new(z, z, x, z));
    assert_eq!(a.zzxw(), Float4::<f32>::new(z, z, x, w));
    assert_eq!(a.zzyx(), Float4::<f32>::new(z, z, y, x));
    assert_eq!(a.zzyy(), Float4::<f32>::new(z, z, y, y));
    assert_eq!(a.zzyz(), Float4::<f32>::new(z, z, y, z));
    assert_eq!(a.zzyw(), Float4::<f32>::new(z, z, y, w));
    assert_eq!(a.zzzx(), Float4::<f32>::new(z, z, z, x));
    assert_eq!(a.zzzy(), Float4::<f32>::new(z, z, z, y));
    assert_eq!(a.zzzz(), Float4::<f32>::new(z, z, z, z));
    assert_eq!(a.zzzw(), Float4::<f32>::new(z, z, z, w));
    assert_eq!(a.zzwx(), Float4::<f32>::new(z, z, w, x));
    assert_eq!(a.zzwy(), Float4::<f32>::new(z, z, w, y));
    assert_eq!(a.zzwz(), Float4::<f32>::new(z, z, w, z));
    assert_eq!(a.zzww(), Float4::<f32>::new(z, z, w, w));
    assert_eq!(a.zwxx(), Float4::<f32>::new(z, w, x, x));
    assert_eq!(a.zwxy(), Float4::<f32>::new(z, w, x, y));
    assert_eq!(a.zwxz(), Float4::<f32>::new(z, w, x, z));
    assert_eq!(a.zwxw(), Float4::<f32>::new(z, w, x, w));
    assert_eq!(a.zwyx(), Float4::<f32>::new(z, w, y, x));
    assert_eq!(a.zwyy(), Float4::<f32>::new(z, w, y, y));
    assert_eq!(a.zwyz(), Float4::<f32>::new(z, w, y, z));
    assert_eq!(a.zwyw(), Float4::<f32>::new(z, w, y, w));
    assert_eq!(a.zwzx(), Float4::<f32>::new(z, w, z, x));
    assert_eq!(a.zwzy(), Float4::<f32>::new(z, w, z, y));
    assert_eq!(a.zwzz(), Float4::<f32>::new(z, w, z, z));
    assert_eq!(a.zwzw(), Float4::<f32>::new(z, w, z, w));
    assert_eq!(a.zwwx(), Float4::<f32>::new(z, w, w, x));
    assert_eq!(a.zwwy(), Float4::<f32>::new(z, w, w, y));
    assert_eq!(a.zwwz(), Float4::<f32>::new(z, w, w, z));
    assert_eq!(a.zwww(), Float4::<f32>::new(z, w, w, w));
    assert_eq!(a.wxxx(), Float4::<f32>::new(w, x, x, x));
    assert_eq!(a.wxxy(), Float4::<f32>::new(w, x, x, y));
    assert_eq!(a.wxxz(), Float4::<f32>::new(w, x, x, z));
    assert_eq!(a.wxxw(), Float4::<f32>::new(w, x, x, w));
    assert_eq!(a.wxyx(), Float4::<f32>::new(w, x, y, x));
    assert_eq!(a.wxyy(), Float4::<f32>::new(w, x, y, y));
    assert_eq!(a.wxyz(), Float4::<f32>::new(w, x, y, z));
    assert_eq!(a.wxyw(), Float4::<f32>::new(w, x, y, w));
    assert_eq!(a.wxzx(), Float4::<f32>::new(w, x, z, x));
    assert_eq!(a.wxzy(), Float4::<f32>::new(w, x, z, y));
    assert_eq!(a.wxzz(), Float4::<f32>::new(w, x, z, z));
    assert_eq!(a.wxzw(), Float4::<f32>::new(w, x, z, w));
    assert_eq!(a.wxwx(), Float4::<f32>::new(w, x, w, x));
    assert_eq!(a.wxwy(), Float4::<f32>::new(w, x, w, y));
    assert_eq!(a.wxwz(), Float4::<f32>::new(w, x, w, z));
    assert_eq!(a.wxww(), Float4::<f32>::new(w, x, w, w));
    assert_eq!(a.wyxx(), Float4::<f32>::new(w, y, x, x));
    assert_eq!(a.wyxy(), Float4::<f32>::new(w, y, x, y));
    assert_eq!(a.wyxz(), Float4::<f32>::new(w, y, x, z));
    assert_eq!(a.wyxw(), Float4::<f32>::new(w, y, x, w));
    assert_eq!(a.wyyx(), Float4::<f32>::new(w, y, y, x));
    assert_eq!(a.wyyy(), Float4::<f32>::new(w, y, y, y));
    assert_eq!(a.wyyz(), Float4::<f32>::new(w, y, y, z));
    assert_eq!(a.wyyw(), Float4::<f32>::new(w, y, y, w));
    assert_eq!(a.wyzx(), Float4::<f32>::new(w, y, z, x));
    assert_eq!(a.wyzy(), Float4::<f32>::new(w, y, z, y));
    assert_eq!(a.wyzz(), Float4::<f32>::new(w, y, z, z));
    assert_eq!(a.wyzw(), Float4::<f32>::new(w, y, z, w));
    assert_eq!(a.wywx(), Float4::<f32>::new(w, y, w, x));
    assert_eq!(a.wywy(), Float4::<f32>::new(w, y, w, y));
    assert_eq!(a.wywz(), Float4::<f32>::new(w, y, w, z));
    assert_eq!(a.wyww(), Float4::<f32>::new(w, y, w, w));
    assert_eq!(a.wzxx(), Float4::<f32>::new(w, z, x, x));
    assert_eq!(a.wzxy(), Float4::<f32>::new(w, z, x, y));
    assert_eq!(a.wzxz(), Float4::<f32>::new(w, z, x, z));
    assert_eq!(a.wzxw(), Float4::<f32>::new(w, z, x, w));
    assert_eq!(a.wzyx(), Float4::<f32>::new(w, z, y, x));
    assert_eq!(a.wzyy(), Float4::<f32>::new(w, z, y, y));
    assert_eq!(a.wzyz(), Float4::<f32>::new(w, z, y, z));
    assert_eq!(a.wzyw(), Float4::<f32>::new(w, z, y, w));
    assert_eq!(a.wzzx(), Float4::<f32>::new(w, z, z, x));
    assert_eq!(a.wzzy(), Float4::<f32>::new(w, z, z, y));
    assert_eq!(a.wzzz(), Float4::<f32>::new(w, z, z, z));
    assert_eq!(a.wzzw(), Float4::<f32>::new(w, z, z, w));
    assert_eq!(a.wzwx(), Float4::<f32>::new(w, z, w, x));
    assert_eq!(a.wzwy(), Float4::<f32>::new(w, z, w, y));
    assert_eq!(a.wzwz(), Float4::<f32>::new(w, z, w, z));
    assert_eq!(a.wzww(), Float4::<f32>::new(w, z, w, w));
    assert_eq!(a.wwxx(), Float4::<f32>::new(w, w, x, x));
    assert_eq!(a.wwxy(), Float4::<f32>::new(w, w, x, y));
    assert_eq!(a.wwxz(), Float4::<f32>::new(w, w, x, z));
    assert_eq!(a.wwxw(), Float4::<f32>::new(w, w, x, w));
    assert_eq!(a.wwyx(), Float4::<f32>::new(w, w, y, x));
    assert_eq!(a.wwyy(), Float4::<f32>::new(w, w, y, y));
    assert_eq!(a.wwyz(), Float4::<f32>::new(w, w, y, z));
    assert_eq!(a.wwyw(), Float4::<f32>::new(w, w, y, w));
    assert_eq!(a.wwzx(), Float4::<f32>::new(w, w, z, x));
    assert_eq!(a.wwzy(), Float4::<f32>::new(w, w, z, y));
    assert_eq!(a.wwzz(), Float4::<f32>::new(w, w, z, z));
    assert_eq!(a.wwzw(), Float4::<f32>::new(w, w, z, w));
    assert_eq!(a.wwwx(), Float4::<f32>::new(w, w, w, x));
    assert_eq!(a.wwwy(), Float4::<f32>::new(w, w, w, y));
    assert_eq!(a.wwwz(), Float4::<f32>::new(w, w, w, z));
    assert_eq!(a.wwww(), Float4::<f32>::new(w, w, w, w));
}
