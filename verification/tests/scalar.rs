use xmath::Matrix;
use xmath::Scalar;
use xmath::Vector;
use xmath::Vector2;
use xmath::Vector3;

#[test]
fn i64_add_wraps() {
    assert_eq!(3i64.add(4), 7);
    assert_eq!(i64::MAX.add(1), i64::MIN);
}

#[test]
fn i64_sub_wraps() {
    assert_eq!(3i64.sub(10), -7);
    assert_eq!(i64::MIN.sub(1), i64::MAX);
}

#[test]
fn i64_mul_wraps() {
    assert_eq!(6i64.mul(7), 42);
    assert_eq!((1i64 << 62).mul(2), i64::MIN);
}

#[test]
fn i64_div_truncates() {
    assert_eq!(7i64.div(2), 3);
    assert_eq!((-7i64).div(2), -3);
    assert_eq!(7i64.div(-2), -3);
}

#[test]
fn i64_sqrt_rounds_down() {
    assert_eq!(0i64.sqrt(), 0);
    assert_eq!(15i64.sqrt(), 3);
    assert_eq!(16i64.sqrt(), 4);
    assert_eq!(1000000i64.sqrt(), 1000);
    assert_eq!(i64::MAX.sqrt(), 3037000499);
}

#[test]
fn i64_sqrt_of_negative_is_nan_stand_in() {
    assert_eq!((-5i64).sqrt(), i64::MIN);
}

#[test]
fn i64_trig_is_constant() {
    assert_eq!(3i64.sin_cos(), (0, 1));
    assert_eq!((-3i64).sin_cos(), (0, 1));
}

#[test]
fn i64_min_max() {
    assert_eq!(Scalar::min(3i64, -4), -4);
    assert_eq!(Scalar::max(3i64, -4), 3);
}

#[test]
fn i64_rounding_keeps_value() {
    assert_eq!(9i64.round(), 9);
    assert_eq!((-9i64).trunc(), -9);
    assert_eq!(9i64.floor(), 9);
    assert_eq!((-9i64).ceil(), -9);
}

#[test]
fn i64_vector_add_neg_is_zero() {
    let v = Vector3::new(10i64, -20, 30);
    let sum = v.add(v.neg());

    assert_eq!(sum, Vector3::new(0i64, 0, 0));
}

#[test]
fn i64_vector_add_wraps() {
    let v = Vector2::new(i64::MAX, 1).add(Vector2::new(1, 2));

    assert_eq!(v, Vector2::new(i64::MIN, 3));
}

#[test]
fn i64_matrix_mul_identity() {
    let m = Matrix::new(
        2i64, 3, 5, 7, 11, 13, 17, 19, 23, 29, 31, 37, 41, 43, 47, 53,
    );
    let id: Matrix<i64> = Matrix::identity();

    assert_eq!(m.mul(&id), m);
    assert_eq!(id.mul(&m), m);
}

#[test]
fn i64_rotation_composed_with_inverse_is_identity() {
    let product = Matrix::rotation_x(9i64).mul(&Matrix::rotation_x(-9i64));

    assert_eq!(product, Matrix::identity());
}

#[test]
fn i64_vector_dot() {
    let a = Vector3::new(1i64, 2, 3);
    let b = Vector3::new(4i64, -5, 6);

    assert_eq!(a.dot(&b), 12);
}
