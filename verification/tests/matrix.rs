use xmath::Matrix;
use xmath::Scalar;
use xmath::Vector3;

/// A single-precision lane type for exercising the generic API with the
/// floating-point arithmetic a renderer would use.
#[derive(Clone, Copy, Debug, PartialEq)]
struct F(f32);

impl Scalar for F {
    fn spec_zero() -> F {
        F(0.0)
    }

    fn spec_one() -> F {
        F(1.0)
    }

    fn spec_half() -> F {
        F(0.5)
    }

    fn spec_infinity() -> F {
        F(f32::INFINITY)
    }

    fn spec_nan() -> F {
        F(f32::NAN)
    }

    fn spec_epsilon() -> F {
        F(f32::EPSILON)
    }

    fn spec_add(self, other: F) -> F {
        F(self.0 + other.0)
    }

    fn spec_sub(self, other: F) -> F {
        F(self.0 - other.0)
    }

    fn spec_mul(self, other: F) -> F {
        F(self.0 * other.0)
    }

    fn spec_div_ok(self, _other: F) -> bool {
        true
    }

    fn spec_div(self, other: F) -> F {
        F(self.0 / other.0)
    }

    fn spec_neg(self) -> F {
        F(-self.0)
    }

    fn spec_min(self, other: F) -> F {
        F(self.0.min(other.0))
    }

    fn spec_max(self, other: F) -> F {
        F(self.0.max(other.0))
    }

    fn spec_round(self) -> F {
        F(self.0.round())
    }

    fn spec_trunc(self) -> F {
        F(self.0.trunc())
    }

    fn spec_floor(self) -> F {
        F(self.0.floor())
    }

    fn spec_ceil(self) -> F {
        F(self.0.ceil())
    }

    fn spec_sqrt(self) -> F {
        F(self.0.sqrt())
    }

    fn spec_sin(self) -> F {
        F(self.0.sin())
    }

    fn spec_cos(self) -> F {
        F(self.0.cos())
    }

    fn spec_is_lt(self, other: F) -> bool {
        self.0 < other.0
    }

    fn spec_is_infinite(self) -> bool {
        self.0.is_infinite()
    }

    fn zero() -> F {
        F(0.0)
    }

    fn one() -> F {
        F(1.0)
    }

    fn half() -> F {
        F(0.5)
    }

    fn infinity() -> F {
        F(f32::INFINITY)
    }

    fn nan() -> F {
        F(f32::NAN)
    }

    fn epsilon() -> F {
        F(f32::EPSILON)
    }

    fn add(self, other: F) -> F {
        F(self.0 + other.0)
    }

    fn sub(self, other: F) -> F {
        F(self.0 - other.0)
    }

    fn mul(self, other: F) -> F {
        F(self.0 * other.0)
    }

    fn div(self, other: F) -> F {
        F(self.0 / other.0)
    }

    fn neg(self) -> F {
        F(-self.0)
    }

    fn min(self, other: F) -> F {
        F(self.0.min(other.0))
    }

    fn max(self, other: F) -> F {
        F(self.0.max(other.0))
    }

    fn round(self) -> F {
        F(self.0.round())
    }

    fn trunc(self) -> F {
        F(self.0.trunc())
    }

    fn floor(self) -> F {
        F(self.0.floor())
    }

    fn ceil(self) -> F {
        F(self.0.ceil())
    }

    fn sqrt(self) -> F {
        F(self.0.sqrt())
    }

    fn sin_cos(self) -> (F, F) {
        let (s, c) = self.0.sin_cos();
        (F(s), F(c))
    }

    fn is_infinite(self) -> bool {
        self.0.is_infinite()
    }
}

fn prime_matrix() -> Matrix<F> {
    Matrix::new(
        F(2.0),
        F(3.0),
        F(5.0),
        F(7.0),
        F(11.0),
        F(13.0),
        F(17.0),
        F(19.0),
        F(23.0),
        F(29.0),
        F(31.0),
        F(37.0),
        F(41.0),
        F(43.0),
        F(47.0),
        F(53.0),
    )
}

fn entries(m: &Matrix<F>) -> [[f32; 4]; 4] {
    let mut out = [[0.0f32; 4]; 4];
    for (i, row) in out.iter_mut().enumerate() {
        let r = m.row(i);
        for (j, e) in row.iter_mut().enumerate() {
            *e = r[j].0;
        }
    }
    out
}

#[test]
fn create_zero_filled_matrix() {
    let m: Matrix<F> = Matrix::zero();

    assert_eq!(m.row(0)[0], F(0.0));
    assert_eq!(m.row(0)[1], F(0.0));
    assert_eq!(m.row(0)[2], F(0.0));
    assert_eq!(m.row(0)[3], F(0.0));
    assert_eq!(m.row(1)[0], F(0.0));
    assert_eq!(m.row(1)[1], F(0.0));
    assert_eq!(m.row(1)[2], F(0.0));
    assert_eq!(m.row(1)[3], F(0.0));
    assert_eq!(m.row(2)[0], F(0.0));
    assert_eq!(m.row(2)[1], F(0.0));
    assert_eq!(m.row(2)[2], F(0.0));
    assert_eq!(m.row(2)[3], F(0.0));
    assert_eq!(m.row(3)[0], F(0.0));
    assert_eq!(m.row(3)[1], F(0.0));
    assert_eq!(m.row(3)[2], F(0.0));
    assert_eq!(m.row(3)[3], F(0.0));
}

#[test]
fn new_matrix() {
    let m = Matrix::new(
        F(1.0),
        F(2.0),
        F(3.0),
        F(4.0),
        F(5.0),
        F(6.0),
        F(7.0),
        F(8.0),
        F(9.0),
        F(10.0),
        F(11.0),
        F(12.0),
        F(13.0),
        F(14.0),
        F(15.0),
        F(16.0),
    );

    assert_eq!(m.row(0)[0], F(1.0));
    assert_eq!(m.row(0)[1], F(2.0));
    assert_eq!(m.row(0)[2], F(3.0));
    assert_eq!(m.row(0)[3], F(4.0));
    assert_eq!(m.row(1)[0], F(5.0));
    assert_eq!(m.row(1)[1], F(6.0));
    assert_eq!(m.row(1)[2], F(7.0));
    assert_eq!(m.row(1)[3], F(8.0));
    assert_eq!(m.row(2)[0], F(9.0));
    assert_eq!(m.row(2)[1], F(10.0));
    assert_eq!(m.row(2)[2], F(11.0));
    assert_eq!(m.row(2)[3], F(12.0));
    assert_eq!(m.row(3)[0], F(13.0));
    assert_eq!(m.row(3)[1], F(14.0));
    assert_eq!(m.row(3)[2], F(15.0));
    assert_eq!(m.row(3)[3], F(16.0));
}

#[test]
fn indexing() {
    let matrix = prime_matrix();

    let row0 = matrix.row(0);
    assert_eq!(row0, [F(2.0), F(3.0), F(5.0), F(7.0)]);

    let row1 = matrix.row(1);
    assert_eq!(row1, [F(11.0), F(13.0), F(17.0), F(19.0)]);

    let row2 = matrix.row(2);
    assert_eq!(row2, [F(23.0), F(29.0), F(31.0), F(37.0)]);

    let row3 = matrix.row(3);
    assert_eq!(row3, [F(41.0), F(43.0), F(47.0), F(53.0)]);
}

#[test]
fn identity_has_unit_diagonal() {
    let m: Matrix<F> = Matrix::identity();

    assert_eq!(entries(&m), [
        [1.0, 0.0, 0.0, 0.0],
        [0.0, 1.0, 0.0, 0.0],
        [0.0, 0.0, 1.0, 0.0],
        [0.0, 0.0, 0.0, 1.0],
    ]);
}

#[test]
fn mul_by_identity_keeps_matrix() {
    let m = prime_matrix();
    let id: Matrix<F> = Matrix::identity();

    assert_eq!(m.mul(&id), m);
    assert_eq!(id.mul(&m), m);
}

#[test]
fn mul_diagonal_scales_rows() {
    let d = Matrix::new(
        F(2.0),
        F(0.0),
        F(0.0),
        F(0.0),
        F(0.0),
        F(3.0),
        F(0.0),
        F(0.0),
        F(0.0),
        F(0.0),
        F(4.0),
        F(0.0),
        F(0.0),
        F(0.0),
        F(0.0),
        F(5.0),
    );
    let m = prime_matrix();
    let p = d.mul(&m);

    assert_eq!(entries(&p), [
        [4.0, 6.0, 10.0, 14.0],
        [33.0, 39.0, 51.0, 57.0],
        [92.0, 116.0, 124.0, 148.0],
        [205.0, 215.0, 235.0, 265.0],
    ]);
}

#[test]
fn transpose_swaps_rows_and_columns() {
    let m = prime_matrix();
    let t = m.transpose();

    assert_eq!(entries(&t), [
        [2.0, 11.0, 23.0, 41.0],
        [3.0, 13.0, 29.0, 43.0],
        [5.0, 17.0, 31.0, 47.0],
        [7.0, 19.0, 37.0, 53.0],
    ]);
}

#[test]
fn transpose_twice_restores_matrix() {
    let m = prime_matrix();

    assert_eq!(m.transpose().transpose(), m);
}

#[test]
fn rotation_x_zero_angle_is_identity() {
    let m = Matrix::rotation_x(F(0.0));

    assert_eq!(m, Matrix::identity());
}

#[test]
fn rotation_x_composed_with_inverse_approximates_identity() {
    let angle = 0.7f32;
    let product = Matrix::rotation_x(F(angle)).mul(&Matrix::rotation_x(F(-angle)));
    let id: Matrix<F> = Matrix::identity();

    let got = entries(&product);
    let want = entries(&id);
    for i in 0..4 {
        for j in 0..4 {
            assert!((got[i][j] - want[i][j]).abs() < 1e-6);
        }
    }
}

#[test]
fn rotation_y_layout() {
    let angle = 0.7f32;
    let (s, c) = angle.sin_cos();
    let m = Matrix::rotation_y(F(angle));

    assert_eq!(entries(&m), [
        [c, 0.0, -s, 0.0],
        [0.0, 1.0, 0.0, 0.0],
        [s, 0.0, c, 0.0],
        [0.0, 0.0, 0.0, 1.0],
    ]);
}

#[test]
fn rotation_z_layout() {
    let angle = 0.7f32;
    let (s, c) = angle.sin_cos();
    let m = Matrix::rotation_z(F(angle));

    assert_eq!(entries(&m), [
        [c, s, 0.0, 0.0],
        [-s, c, 0.0, 0.0],
        [0.0, 0.0, 1.0, 0.0],
        [0.0, 0.0, 0.0, 1.0],
    ]);
}

#[test]
fn translation_sets_last_row() {
    let m = Matrix::translation(F(7.0), F(8.0), F(9.0));

    assert_eq!(entries(&m), [
        [1.0, 0.0, 0.0, 0.0],
        [0.0, 1.0, 0.0, 0.0],
        [0.0, 0.0, 1.0, 0.0],
        [7.0, 8.0, 9.0, 1.0],
    ]);
}

#[test]
fn orthographic_values() {
    let m = Matrix::orthographic(F(2.0), F(4.0), F(0.0), F(-1.0));

    assert_eq!(entries(&m), [
        [1.0, 0.0, 0.0, 0.0],
        [0.0, 0.5, 0.0, 0.0],
        [0.0, 0.0, 1.0, 0.0],
        [0.0, 0.0, 0.0, 1.0],
    ]);
}

#[test]
fn orthographic_off_center_values() {
    let m = Matrix::orthographic_off_center(F(0.0), F(2.0), F(0.0), F(4.0), F(0.0), F(-1.0));

    assert_eq!(entries(&m), [
        [1.0, 0.0, 0.0, 0.0],
        [0.0, 0.5, 0.0, 0.0],
        [0.0, 0.0, 1.0, 0.0],
        [-1.0, -1.0, 0.0, 1.0],
    ]);
}

#[test]
fn perspective_values() {
    let m = Matrix::perspective(F(2.0), F(2.0), F(1.0), F(3.0));

    assert_eq!(entries(&m), [
        [1.0, 0.0, 0.0, 0.0],
        [0.0, 1.0, 0.0, 0.0],
        [0.0, 0.0, -1.5, -1.0],
        [0.0, 0.0, -1.5, 0.0],
    ]);
}

#[test]
fn perspective_fov_values() {
    let m = Matrix::perspective_fov(F(std::f32::consts::FRAC_PI_2), F(2.0), F(1.0), F(3.0));
    let got = entries(&m);

    assert!((got[0][0] - 0.5).abs() < 1e-6);
    assert!((got[1][1] - 1.0).abs() < 1e-6);
    assert!((got[2][2] - -1.5).abs() < 1e-6);
    assert_eq!(got[2][3], -1.0);
    assert!((got[3][2] - -1.5).abs() < 1e-6);
    assert_eq!(got[3][3], 0.0);
}

#[test]
fn look_to_along_negative_z_is_identity() {
        let eye = Vector3::new(F(0.0), F(0.0), F(0.0));
    let dir = Vector3::new(F(0.0), F(0.0), F(-1.0));
    let up = Vector3::new(F(0.0), F(1.0), F(0.0));
    let m = Matrix::look_to(eye, dir, up);

    assert_eq!(m, Matrix::identity());
}

#[test]
fn look_at_translates_eye() {
        let eye = Vector3::new(F(1.0), F(2.0), F(3.0));
    let focus = Vector3::new(F(1.0), F(2.0), F(2.0));
    let up = Vector3::new(F(0.0), F(1.0), F(0.0));
    let m = Matrix::look_at(eye, focus, up);

    assert_eq!(entries(&m), [
        [1.0, 0.0, 0.0, 0.0],
        [0.0, 1.0, 0.0, 0.0],
        [0.0, 0.0, 1.0, 0.0],
        [-1.0, -2.0, -3.0, 1.0],
    ]);
}
