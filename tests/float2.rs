use vecmath::Float2;
use vecmath::Float3;

#[test]
fn float2_from() {
    let result = Float2::<f32>::new(1.5, 2.25);
    assert_eq!(result.x, 1.5);
    assert_eq!(result.y, 2.25);
}

#[test]
fn float2_ops_add() {
    let a = Float2::<f32>::new(1.5, 2.25);
    let b = Float2::<f32>::new(3.1, 2.75);
    let result = a + b;
    assert_eq!(result.x, 4.6);
    assert_eq!(result.y, 5.0);
}

#[test]
fn float2_ops_add_assign() {
    let mut result = Float2::<f32>::new(1.5, 2.25);
    let b = Float2::<f32>::new(3.1, 2.75);
    result += b;
    assert_eq!(result.x, 4.6);
    assert_eq!(result.y, 5.0);
}

#[test]
fn float2_ops_sub() {
    let a = Float2::<f32>::new(1.5, 2.25);
    let b = Float2::<f32>::new(3.1, 2.75);
    let result = a - b;
    assert_eq!(result.x, -1.5999999);
    assert_eq!(result.y, -0.5);
}

#[test]
fn float2_ops_sub_assign() {
    let mut result = Float2::<f32>::new(1.5, 2.25);
    let b = Float2::<f32>::new(3.1, 2.75);
    result -= b;
    assert_eq!(result.x, -1.5999999);
    assert_eq!(result.y, -0.5);
}

#[test]
fn float2_ops_mul() {
    let a = Float2::<f32>::new(1.5, 2.5);
    let b = Float2::<f32>::new(3.0, 2.0);
    let result = a * b;
    assert_eq!(result.x, 4.5);
    assert_eq!(result.y, 5.0);
}

#[test]
fn float2_ops_mul_assign() {
    let mut result = Float2::<f32>::new(1.5, 2.5);
    let b = Float2::<f32>::new(3.0, 2.0);
    result *= b;
    assert_eq!(result.x, 4.5);
    assert_eq!(result.y, 5.0);
}

#[test]
fn float2_ops_div() {
    let a = Float2::<f32>::new(1.5, 2.5);
    let b = Float2::<f32>::new(3.0, 2.0);
    let result = a / b;
    assert_eq!(result.x, 0.5);
    assert_eq!(result.y, 1.25);
}

#[test]
fn float2_ops_div_assign() {
    let mut result = Float2::<f32>::new(1.5, 2.5);
    let b = Float2::<f32>::new(3.0, 2.0);
    result /= b;
    assert_eq!(result.x, 0.5);
    assert_eq!(result.y, 1.25);
}

#[test]
fn float2_ops_neg() {
    let result = -Float2::<f32>::new(1.5, 2.5);
    assert_eq!(result.x, -1.5);
    assert_eq!(result.y, -2.5);
}

#[test]
fn float2_equality() {
    let mut a = Float2::<f32>::new(20.0, 1.0);
    let b = a;
    a += b;
    assert_eq!(a.x, 40.0);
    assert_eq!(a.y, 2.0);
    assert_eq!(b.x, 20.0);
    assert_eq!(b.y, 1.0);

    assert_eq!(a == b, false);

    assert_ne!(a, b);
    let a = Float2::<f32>::new(20.0, 1.0);
    assert_eq!(a, b);

    assert_eq!(a == b, true);
    assert_eq!(a != b, false);
}

#[test]
fn float2_dot() {
    let a = Float2::<f32>::new(1.0, 1.0);
    let b = Float2::<f32>::new(5.0, 5.0);
    let result = a.dot(&b);
    assert_eq!(result, 10.0);
}

#[test]
fn float2_lerp() {
    let a = Float2::<f32>::new(0.0, 0.1);
    let b = Float2::<f32>::new(2.0, 4.1);
    assert_eq!(a.lerp(&b, 0.5), Float2::<f32>::new(1.0, 2.1));
    assert_eq!(a.lerp(&b, 1.5), Float2::<f32>::new(3.0, 6.1));
}

#[test]
fn float2_mad() {
    let a = Float2::<f32>::new(2.0, 2.0);
    let b = Float2::<f32>::new(4.0, 5.0);
    let c = Float2::<f32>::new(0.5, 0.25);
    assert_eq!(a.mad(&b, &c), Float2::<f32>::new(8.5, 10.25));
}

#[test]
fn float2_swizzle() {
    let x = 1.0;
    let y = 2.0;
    let a = Float2::<f32>::new(x, y);
    assert_eq!(a.xx(), Float2::<f32>::new(x, x));
    assert_eq!(a.xy(), Float2::<f32>::new(x, y));
    assert_eq!(a.yx(), Float2::<f32>::new(y, x));
    assert_eq!(a.yy(), Float2::<f32>::new(y, y));
    assert_eq!(a.xxx(), Float3::<f32>::new(x, x, x));
    assert_eq!(a.xxy(), Float3::<f32>::new(x, x, y));
    assert_eq!(a.xyx(), Float3::<f32>::new(x, y, x));
    assert_eq!(a.xyy(), Float3::<f32>::new(x, y, y));
    assert_eq!(a.yxx(), Float3::<f32>::new(y, x, x));
    assert_eq!(a.yxy(), Float3::<f32>::new(y, x, y));
    assert_eq!(a.yyx(), Float3::<f32>::new(y, y, x));
    assert_eq!(a.yyy(), Float3::<f32>::new(y, y, y));
}
