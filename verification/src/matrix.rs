//! A 4-by-4 row-major transform matrix over an abstract scalar.
//!
//! Constructors build the standard graphics transforms — identity,
//! rotations, translation, projections, and view matrices — and every
//! postcondition pins each of the sixteen entries in terms of the scalar's
//! specification functions.

use crate::scalar::Scalar;
use crate::vector::Vector;
use crate::vector::Vector3;
use vstd::prelude::*;

verus! {

/// One row of a matrix, as four scalars in column order.
pub type Row<T> = [T; 4];

/// A 4-by-4 matrix, stored row-major: `mRC` is the entry of row `R`,
/// column `C`.
#[derive(Clone, Copy, PartialEq, Debug)]
pub struct Matrix<T> {
    pub m00: T,
    pub m01: T,
    pub m02: T,
    pub m03: T,
    pub m10: T,
    pub m11: T,
    pub m12: T,
    pub m13: T,
    pub m20: T,
    pub m21: T,
    pub m22: T,
    pub m23: T,
    pub m30: T,
    pub m31: T,
    pub m32: T,
    pub m33: T,
}

impl<T: Scalar> Matrix<T> {
    /// The entry of row `r`, column `c`; zero outside the 4-by-4 range.
    pub open spec fn entry(self, r: int, c: int) -> T {
        if r == 0 {
            if c == 0 {
                self.m00
            } else if c == 1 {
                self.m01
            } else if c == 2 {
                self.m02
            } else if c == 3 {
                self.m03
            } else {
                T::spec_zero()
            }
        } else if r == 1 {
            if c == 0 {
                self.m10
            } else if c == 1 {
                self.m11
            } else if c == 2 {
                self.m12
            } else if c == 3 {
                self.m13
            } else {
                T::spec_zero()
            }
        } else if r == 2 {
            if c == 0 {
                self.m20
            } else if c == 1 {
                self.m21
            } else if c == 2 {
                self.m22
            } else if c == 3 {
                self.m23
            } else {
                T::spec_zero()
            }
        } else if r == 3 {
            if c == 0 {
                self.m30
            } else if c == 1 {
                self.m31
            } else if c == 2 {
                self.m32
            } else if c == 3 {
                self.m33
            } else {
                T::spec_zero()
            }
        } else {
            T::spec_zero()
        }
    }
}

impl<T: Scalar> Matrix<T> {
    /// The all-zero matrix as a specification value.
    pub open spec fn spec_zero() -> Self {
        Matrix {
            m00: T::spec_zero(),
            m01: T::spec_zero(),
            m02: T::spec_zero(),
            m03: T::spec_zero(),
            m10: T::spec_zero(),
            m11: T::spec_zero(),
            m12: T::spec_zero(),
            m13: T::spec_zero(),
            m20: T::spec_zero(),
            m21: T::spec_zero(),
            m22: T::spec_zero(),
            m23: T::spec_zero(),
            m30: T::spec_zero(),
            m31: T::spec_zero(),
            m32: T::spec_zero(),
            m33: T::spec_zero(),
        }
    }

    /// The identity matrix as a specification value.
    pub open spec fn spec_identity() -> Self {
        Matrix {
            m00: T::spec_one(),
            m01: T::spec_zero(),
            m02: T::spec_zero(),
            m03: T::spec_zero(),
            m10: T::spec_zero(),
            m11: T::spec_one(),
            m12: T::spec_zero(),
            m13: T::spec_zero(),
            m20: T::spec_zero(),
            m21: T::spec_zero(),
            m22: T::spec_one(),
            m23: T::spec_zero(),
            m30: T::spec_zero(),
            m31: T::spec_zero(),
            m32: T::spec_zero(),
            m33: T::spec_one(),
        }
    }

    /// The transposed matrix as a specification value.
    pub open spec fn spec_transpose(self) -> Self {
        Matrix {
            m00: self.m00,
            m01: self.m10,
            m02: self.m20,
            m03: self.m30,
            m10: self.m01,
            m11: self.m11,
            m12: self.m21,
            m13: self.m31,
            m20: self.m02,
            m21: self.m12,
            m22: self.m22,
            m23: self.m32,
            m30: self.m03,
            m31: self.m13,
            m32: self.m23,
            m33: self.m33,
        }
    }

    /// The matrix product `self * rhs` as a specification value: the entry
    /// of row `i`, column `j` sums the products of row `i` of `self` with
    /// column `j` of `rhs`.
    pub open spec fn spec_mul(self, rhs: Self) -> Self {
        Matrix {
            m00: rhs.m00.spec_mul(self.m00)
                .spec_add(rhs.m10.spec_mul(self.m01))
                .spec_add(rhs.m20.spec_mul(self.m02))
                .spec_add(rhs.m30.spec_mul(self.m03)),
            m01: rhs.m01.spec_mul(self.m00)
                .spec_add(rhs.m11.spec_mul(self.m01))
                .spec_add(rhs.m21.spec_mul(self.m02))
                .spec_add(rhs.m31.spec_mul(self.m03)),
            m02: rhs.m02.spec_mul(self.m00)
                .spec_add(rhs.m12.spec_mul(self.m01))
                .spec_add(rhs.m22.spec_mul(self.m02))
                .spec_add(rhs.m32.spec_mul(self.m03)),
            m03: rhs.m03.spec_mul(self.m00)
                .spec_add(rhs.m13.spec_mul(self.m01))
                .spec_add(rhs.m23.spec_mul(self.m02))
                .spec_add(rhs.m33.spec_mul(self.m03)),
            m10: rhs.m00.spec_mul(self.m10)
                .spec_add(rhs.m10.spec_mul(self.m11))
                .spec_add(rhs.m20.spec_mul(self.m12))
                .spec_add(rhs.m30.spec_mul(self.m13)),
            m11: rhs.m01.spec_mul(self.m10)
                .spec_add(rhs.m11.spec_mul(self.m11))
                .spec_add(rhs.m21.spec_mul(self.m12))
                .spec_add(rhs.m31.spec_mul(self.m13)),
            m12: rhs.m02.spec_mul(self.m10)
                .spec_add(rhs.m12.spec_mul(self.m11))
                .spec_add(rhs.m22.spec_mul(self.m12))
                .spec_add(rhs.m32.spec_mul(self.m13)),
            m13: rhs.m03.spec_mul(self.m10)
                .spec_add(rhs.m13.spec_mul(self.m11))
                .spec_add(rhs.m23.spec_mul(self.m12))
                .spec_add(rhs.m33.spec_mul(self.m13)),
            m20: rhs.m00.spec_mul(self.m20)
                .spec_add(rhs.m10.spec_mul(self.m21))
                .spec_add(rhs.m20.spec_mul(self.m22))
                .spec_add(rhs.m30.spec_mul(self.m23)),
            m21: rhs.m01.spec_mul(self.m20)
                .spec_add(rhs.m11.spec_mul(self.m21))
                .spec_add(rhs.m21.spec_mul(self.m22))
                .spec_add(rhs.m31.spec_mul(self.m23)),
            m22: rhs.m02.spec_mul(self.m20)
                .spec_add(rhs.m12.spec_mul(self.m21))
                .spec_add(rhs.m22.spec_mul(self.m22))
                .spec_add(rhs.m32.spec_mul(self.m23)),
            m23: rhs.m03.spec_mul(self.m20)
                .spec_add(rhs.m13.spec_mul(self.m21))
                .spec_add(rhs.m23.spec_mul(self.m22))
                .spec_add(rhs.m33.spec_mul(self.m23)),
            m30: rhs.m00.spec_mul(self.m30)
                .spec_add(rhs.m10.spec_mul(self.m31))
                .spec_add(rhs.m20.spec_mul(self.m32))
                .spec_add(rhs.m30.spec_mul(self.m33)),
            m31: rhs.m01.spec_mul(self.m30)
                .spec_add(rhs.m11.spec_mul(self.m31))
                .spec_add(rhs.m21.spec_mul(self.m32))
                .spec_add(rhs.m31.spec_mul(self.m33)),
            m32: rhs.m02.spec_mul(self.m30)
                .spec_add(rhs.m12.spec_mul(self.m31))
                .spec_add(rhs.m22.spec_mul(self.m32))
                .spec_add(rhs.m32.spec_mul(self.m33)),
            m33: rhs.m03.spec_mul(self.m30)
                .spec_add(rhs.m13.spec_mul(self.m31))
                .spec_add(rhs.m23.spec_mul(self.m32))
                .spec_add(rhs.m33.spec_mul(self.m33)),
        }
    }

    /// The all-zero matrix.
    pub fn zero() -> (r: Self)
        ensures
            r == Self::spec_zero(),
    {
        let z = T::zero();
        Matrix {
            m00: z,
            m01: z,
            m02: z,
            m03: z,
            m10: z,
            m11: z,
            m12: z,
            m13: z,
            m20: z,
            m21: z,
            m22: z,
            m23: z,
            m30: z,
            m31: z,
            m32: z,
            m33: z,
        }
    }

    /// The identity matrix.
    pub fn identity() -> (r: Self)
        ensures
            r == Self::spec_identity(),
    {
        let z = T::zero();
        let o = T::one();
        Matrix {
            m00: o,
            m01: z,
            m02: z,
            m03: z,
            m10: z,
            m11: o,
            m12: z,
            m13: z,
            m20: z,
            m21: z,
            m22: o,
            m23: z,
            m30: z,
            m31: z,
            m32: z,
            m33: o,
        }
    }

    /// Builds the matrix from its sixteen entries, row by row.
    pub fn new(
        m00: T,
        m01: T,
        m02: T,
        m03: T,
        m10: T,
        m11: T,
        m12: T,
        m13: T,
        m20: T,
        m21: T,
        m22: T,
        m23: T,
        m30: T,
        m31: T,
        m32: T,
        m33: T,
    ) -> (r: Self)
        ensures
            r == (Matrix {
                m00,
                m01,
                m02,
                m03,
                m10,
                m11,
                m12,
                m13,
                m20,
                m21,
                m22,
                m23,
                m30,
                m31,
                m32,
                m33,
            }),
    {
        Matrix {
            m00,
            m01,
            m02,
            m03,
            m10,
            m11,
            m12,
            m13,
            m20,
            m21,
            m22,
            m23,
            m30,
            m31,
            m32,
            m33,
        }
    }

    /// Swaps rows and columns.
    pub fn transpose(self) -> (r: Self)
        ensures
            r == self.spec_transpose(),
    {
        Matrix {
            m00: self.m00,
            m01: self.m10,
            m02: self.m20,
            m03: self.m30,
            m10: self.m01,
            m11: self.m11,
            m12: self.m21,
            m13: self.m31,
            m20: self.m02,
            m21: self.m12,
            m22: self.m22,
            m23: self.m32,
            m30: self.m03,
            m31: self.m13,
            m32: self.m23,
            m33: self.m33,
        }
    }

    /// The row-by-column matrix product.
    pub fn mul(&self, rhs: &Self) -> (r: Self)
        ensures
            r == self.spec_mul(*rhs),
    {
        Matrix {
            m00: rhs.m00.mul(self.m00)
                .add(rhs.m10.mul(self.m01))
                .add(rhs.m20.mul(self.m02))
                .add(rhs.m30.mul(self.m03)),
            m01: rhs.m01.mul(self.m00)
                .add(rhs.m11.mul(self.m01))
                .add(rhs.m21.mul(self.m02))
                .add(rhs.m31.mul(self.m03)),
            m02: rhs.m02.mul(self.m00)
                .add(rhs.m12.mul(self.m01))
                .add(rhs.m22.mul(self.m02))
                .add(rhs.m32.mul(self.m03)),
            m03: rhs.m03.mul(self.m00)
                .add(rhs.m13.mul(self.m01))
                .add(rhs.m23.mul(self.m02))
                .add(rhs.m33.mul(self.m03)),
            m10: rhs.m00.mul(self.m10)
                .add(rhs.m10.mul(self.m11))
                .add(rhs.m20.mul(self.m12))
                .add(rhs.m30.mul(self.m13)),
            m11: rhs.m01.mul(self.m10)
                .add(rhs.m11.mul(self.m11))
                .add(rhs.m21.mul(self.m12))
                .add(rhs.m31.mul(self.m13)),
            m12: rhs.m02.mul(self.m10)
                .add(rhs.m12.mul(self.m11))
                .add(rhs.m22.mul(self.m12))
                .add(rhs.m32.mul(self.m13)),
            m13: rhs.m03.mul(self.m10)
                .add(rhs.m13.mul(self.m11))
                .add(rhs.m23.mul(self.m12))
                .add(rhs.m33.mul(self.m13)),
            m20: rhs.m00.mul(self.m20)
                .add(rhs.m10.mul(self.m21))
                .add(rhs.m20.mul(self.m22))
                .add(rhs.m30.mul(self.m23)),
            m21: rhs.m01.mul(self.m20)
                .add(rhs.m11.mul(self.m21))
                .add(rhs.m21.mul(self.m22))
                .add(rhs.m31.mul(self.m23)),
            m22: rhs.m02.mul(self.m20)
                .add(rhs.m12.mul(self.m21))
                .add(rhs.m22.mul(self.m22))
                .add(rhs.m32.mul(self.m23)),
            m23: rhs.m03.mul(self.m20)
                .add(rhs.m13.mul(self.m21))
                .add(rhs.m23.mul(self.m22))
                .add(rhs.m33.mul(self.m23)),
            m30: rhs.m00.mul(self.m30)
                .add(rhs.m10.mul(self.m31))
                .add(rhs.m20.mul(self.m32))
                .add(rhs.m30.mul(self.m33)),
            m31: rhs.m01.mul(self.m30)
                .add(rhs.m11.mul(self.m31))
                .add(rhs.m21.mul(self.m32))
                .add(rhs.m31.mul(self.m33)),
            m32: rhs.m02.mul(self.m30)
                .add(rhs.m12.mul(self.m31))
                .add(rhs.m22.mul(self.m32))
                .add(rhs.m32.mul(self.m33)),
            m33: rhs.m03.mul(self.m30)
                .add(rhs.m13.mul(self.m31))
                .add(rhs.m23.mul(self.m32))
                .add(rhs.m33.mul(self.m33)),
        }
    }

    /// The four entries of row `i`.
    pub fn row(&self, i: usize) -> (r: Row<T>)
        requires
            i < 4,
        ensures
            r[0] == self.entry(i as int, 0),
            r[1] == self.entry(i as int, 1),
            r[2] == self.entry(i as int, 2),
            r[3] == self.entry(i as int, 3),
    {
        if i == 0 {
            [self.m00, self.m01, self.m02, self.m03]
        } else if i == 1 {
            [self.m10, self.m11, self.m12, self.m13]
        } else if i == 2 {
            [self.m20, self.m21, self.m22, self.m23]
        } else {
            [self.m30, self.m31, self.m32, self.m33]
        }
    }
}

impl<T: Scalar> Matrix<T> {
    /// The rotation about the x axis as a specification value.
    pub open spec fn spec_rotation_x(rad: T) -> Self {
        let s = rad.spec_sin();
        let c = rad.spec_cos();
        Matrix {
            m00: T::spec_one(), m01: T::spec_zero(), m02: T::spec_zero(), m03: T::spec_zero(),
            m10: T::spec_zero(), m11: c, m12: s, m13: T::spec_zero(),
            m20: T::spec_zero(), m21: s.spec_neg(), m22: c, m23: T::spec_zero(),
            m30: T::spec_zero(), m31: T::spec_zero(), m32: T::spec_zero(), m33: T::spec_one(),
        }
    }

    /// The rotation about the y axis as a specification value.
    pub open spec fn spec_rotation_y(rad: T) -> Self {
        let s = rad.spec_sin();
        let c = rad.spec_cos();
        Matrix {
            m00: c, m01: T::spec_zero(), m02: s.spec_neg(), m03: T::spec_zero(),
            m10: T::spec_zero(), m11: T::spec_one(), m12: T::spec_zero(), m13: T::spec_zero(),
            m20: s, m21: T::spec_zero(), m22: c, m23: T::spec_zero(),
            m30: T::spec_zero(), m31: T::spec_zero(), m32: T::spec_zero(), m33: T::spec_one(),
        }
    }

    /// The rotation about the z axis as a specification value.
    pub open spec fn spec_rotation_z(rad: T) -> Self {
        let s = rad.spec_sin();
        let c = rad.spec_cos();
        Matrix {
            m00: c, m01: s, m02: T::spec_zero(), m03: T::spec_zero(),
            m10: s.spec_neg(), m11: c, m12: T::spec_zero(), m13: T::spec_zero(),
            m20: T::spec_zero(), m21: T::spec_zero(), m22: T::spec_one(), m23: T::spec_zero(),
            m30: T::spec_zero(), m31: T::spec_zero(), m32: T::spec_zero(), m33: T::spec_one(),
        }
    }

    /// The translation by `(ox, oy, oz)` as a specification value.
    pub open spec fn spec_translation(ox: T, oy: T, oz: T) -> Self {
        Matrix {
            m00: T::spec_one(), m01: T::spec_zero(), m02: T::spec_zero(), m03: T::spec_zero(),
            m10: T::spec_zero(), m11: T::spec_one(), m12: T::spec_zero(), m13: T::spec_zero(),
            m20: T::spec_zero(), m21: T::spec_zero(), m22: T::spec_one(), m23: T::spec_zero(),
            m30: ox, m31: oy, m32: oz, m33: T::spec_one(),
        }
    }

    /// The right-handed rotation about the x axis by `rad`.
    pub fn rotation_x(rad: T) -> (r: Self)
        ensures
            r == Self::spec_rotation_x(rad),
    {
        let (sin, cos) = rad.sin_cos();
        let z = T::zero();
        let o = T::one();
        Matrix {
            m00: o, m01: z, m02: z, m03: z,
            m10: z, m11: cos, m12: sin, m13: z,
            m20: z, m21: sin.neg(), m22: cos, m23: z,
            m30: z, m31: z, m32: z, m33: o,
        }
    }

    /// The right-handed rotation about the y axis by `rad`.
    pub fn rotation_y(rad: T) -> (r: Self)
        ensures
            r == Self::spec_rotation_y(rad),
    {
        let (sin, cos) = rad.sin_cos();
        let z = T::zero();
        let o = T::one();
        Matrix {
            m00: cos, m01: z, m02: sin.neg(), m03: z,
            m10: z, m11: o, m12: z, m13: z,
            m20: sin, m21: z, m22: cos, m23: z,
            m30: z, m31: z, m32: z, m33: o,
        }
    }

    /// The right-handed rotation about the z axis by `rad`.
    pub fn rotation_z(rad: T) -> (r: Self)
        ensures
            r == Self::spec_rotation_z(rad),
    {
        let (sin, cos) = rad.sin_cos();
        let z = T::zero();
        let o = T::one();
        Matrix {
            m00: cos, m01: sin, m02: z, m03: z,
            m10: sin.neg(), m11: cos, m12: z, m13: z,
            m20: z, m21: z, m22: o, m23: z,
            m30: z, m31: z, m32: z, m33: o,
        }
    }

    /// The identity with its translation row set to `(ox, oy, oz)`.
    pub fn translation(ox: T, oy: T, oz: T) -> (r: Self)
        ensures
            r == Self::spec_translation(ox, oy, oz),
    {
        let z = T::zero();
        let o = T::one();
        Matrix {
            m00: o, m01: z, m02: z, m03: z,
            m10: z, m11: o, m12: z, m13: z,
            m20: z, m21: z, m22: o, m23: z,
            m30: ox, m31: oy, m32: oz, m33: o,
        }
    }
}

impl<T: Scalar> Matrix<T> {
    /// Whether the orthographic projection's divisors admit division.
    pub open spec fn spec_orthographic_ok(view_width: T, view_height: T, near_z: T, far_z: T) -> bool {
        let two = T::spec_one().spec_add(T::spec_one());
        two.spec_div_ok(view_width) && two.spec_div_ok(view_height) && T::spec_one().spec_div_ok(
            near_z.spec_sub(far_z),
        )
    }

    /// The orthographic projection as a specification value.
    pub open spec fn spec_orthographic(view_width: T, view_height: T, near_z: T, far_z: T) -> Self {
        let two = T::spec_one().spec_add(T::spec_one());
        let f_range = T::spec_one().spec_div(near_z.spec_sub(far_z));
        Matrix {
            m00: two.spec_div(view_width), m01: T::spec_zero(), m02: T::spec_zero(), m03: T::spec_zero(),
            m10: T::spec_zero(), m11: two.spec_div(view_height), m12: T::spec_zero(), m13: T::spec_zero(),
            m20: T::spec_zero(), m21: T::spec_zero(), m22: f_range, m23: T::spec_zero(),
            m30: T::spec_zero(), m31: T::spec_zero(), m32: f_range.spec_mul(near_z), m33: T::spec_one(),
        }
    }

    /// Whether the off-center orthographic projection's divisors admit
    /// division.
    pub open spec fn spec_orthographic_off_center_ok(
        view_left: T,
        view_right: T,
        view_bottom: T,
        view_top: T,
        near_z: T,
        far_z: T,
    ) -> bool {
        T::spec_one().spec_div_ok(view_right.spec_sub(view_left)) && T::spec_one().spec_div_ok(
            view_top.spec_sub(view_bottom),
        ) && T::spec_one().spec_div_ok(near_z.spec_sub(far_z))
    }

    /// The off-center orthographic projection as a specification value.
    pub open spec fn spec_orthographic_off_center(
        view_left: T,
        view_right: T,
        view_bottom: T,
        view_top: T,
        near_z: T,
        far_z: T,
    ) -> Self {
        let r_width = T::spec_one().spec_div(view_right.spec_sub(view_left));
        let r_height = T::spec_one().spec_div(view_top.spec_sub(view_bottom));
        let range = T::spec_one().spec_div(near_z.spec_sub(far_z));
        Matrix {
            m00: r_width.spec_add(r_width), m01: T::spec_zero(), m02: T::spec_zero(), m03: T::spec_zero(),
            m10: T::spec_zero(), m11: r_height.spec_add(r_height), m12: T::spec_zero(), m13: T::spec_zero(),
            m20: T::spec_zero(), m21: T::spec_zero(), m22: range, m23: T::spec_zero(),
            m30: view_left.spec_add(view_right).spec_neg().spec_mul(r_width),
            m31: view_top.spec_add(view_bottom).spec_neg().spec_mul(r_height),
            m32: range.spec_mul(near_z),
            m33: T::spec_one(),
        }
    }

    /// Whether the perspective projection's divisors admit division.
    pub open spec fn spec_perspective_ok(width: T, height: T, near_z: T, far_z: T) -> bool {
        let two_near_z = near_z.spec_add(near_z);
        two_near_z.spec_div_ok(width) && two_near_z.spec_div_ok(height) && far_z.spec_div_ok(
            near_z.spec_sub(far_z),
        )
    }

    /// The perspective projection as a specification value.
    pub open spec fn spec_perspective(width: T, height: T, near_z: T, far_z: T) -> Self {
        let two_near_z = near_z.spec_add(near_z);
        let range = far_z.spec_div(near_z.spec_sub(far_z));
        Matrix {
            m00: two_near_z.spec_div(width), m01: T::spec_zero(), m02: T::spec_zero(), m03: T::spec_zero(),
            m10: T::spec_zero(), m11: two_near_z.spec_div(height), m12: T::spec_zero(), m13: T::spec_zero(),
            m20: T::spec_zero(), m21: T::spec_zero(), m22: range, m23: T::spec_one().spec_neg(),
            m30: T::spec_zero(), m31: T::spec_zero(), m32: range.spec_mul(near_z), m33: T::spec_zero(),
        }
    }

    /// Whether the field-of-view perspective projection's divisors admit
    /// division.
    pub open spec fn spec_perspective_fov_ok(fov: T, aspect: T, near_z: T, far_z: T) -> bool {
        let half_fov = T::spec_half().spec_mul(fov);
        let f = half_fov.spec_cos().spec_div(half_fov.spec_sin());
        half_fov.spec_cos().spec_div_ok(half_fov.spec_sin()) && f.spec_div_ok(aspect)
            && far_z.spec_div_ok(near_z.spec_sub(far_z))
    }

    /// The field-of-view perspective projection as a specification value.
    pub open spec fn spec_perspective_fov(fov: T, aspect: T, near_z: T, far_z: T) -> Self {
        let half_fov = T::spec_half().spec_mul(fov);
        let f = half_fov.spec_cos().spec_div(half_fov.spec_sin());
        let range = far_z.spec_div(near_z.spec_sub(far_z));
        Matrix {
            m00: f.spec_div(aspect), m01: T::spec_zero(), m02: T::spec_zero(), m03: T::spec_zero(),
            m10: T::spec_zero(), m11: f, m12: T::spec_zero(), m13: T::spec_zero(),
            m20: T::spec_zero(), m21: T::spec_zero(), m22: range, m23: T::spec_one().spec_neg(),
            m30: T::spec_zero(), m31: T::spec_zero(), m32: range.spec_mul(near_z), m33: T::spec_zero(),
        }
    }

    /// Builds an orthographic projection from the view volume's width,
    /// height, and depth range. The caller keeps the divisors usable; a
    /// degenerate volume is not detected here.
    pub fn orthographic(view_width: T, view_height: T, near_z: T, far_z: T) -> (r: Self)
        requires
            Self::spec_orthographic_ok(view_width, view_height, near_z, far_z),
        ensures
            r == Self::spec_orthographic(view_width, view_height, near_z, far_z),
    {
        let z = T::zero();
        let o = T::one();
        let two = o.add(o);
        let f_range = o.div(near_z.sub(far_z));
        Matrix {
            m00: two.div(view_width), m01: z, m02: z, m03: z,
            m10: z, m11: two.div(view_height), m12: z, m13: z,
            m20: z, m21: z, m22: f_range, m23: z,
            m30: z, m31: z, m32: f_range.mul(near_z), m33: o,
        }
    }

    /// Builds an orthographic projection from the view volume's edges.
    pub fn orthographic_off_center(
        view_left: T,
        view_right: T,
        view_bottom: T,
        view_top: T,
        near_z: T,
        far_z: T,
    ) -> (r: Self)
        requires
            Self::spec_orthographic_off_center_ok(
                view_left,
                view_right,
                view_bottom,
                view_top,
                near_z,
                far_z,
            ),
        ensures
            r == Self::spec_orthographic_off_center(
                view_left,
                view_right,
                view_bottom,
                view_top,
                near_z,
                far_z,
            ),
    {
        let z = T::zero();
        let o = T::one();
        let r_width = o.div(view_right.sub(view_left));
        let r_height = o.div(view_top.sub(view_bottom));
        let range = o.div(near_z.sub(far_z));
        Matrix {
            m00: r_width.add(r_width), m01: z, m02: z, m03: z,
            m10: z, m11: r_height.add(r_height), m12: z, m13: z,
            m20: z, m21: z, m22: range, m23: z,
            m30: view_left.add(view_right).neg().mul(r_width),
            m31: view_top.add(view_bottom).neg().mul(r_height),
            m32: range.mul(near_z),
            m33: o,
        }
    }

    /// Builds a perspective projection from the near plane's width and
    /// height and the depth range.
    pub fn perspective(width: T, height: T, near_z: T, far_z: T) -> (r: Self)
        requires
            Self::spec_perspective_ok(width, height, near_z, far_z),
        ensures
            r == Self::spec_perspective(width, height, near_z, far_z),
    {
        let z = T::zero();
        let o = T::one();
        let two_near_z = near_z.add(near_z);
        let range = far_z.div(near_z.sub(far_z));
        Matrix {
            m00: two_near_z.div(width), m01: z, m02: z, m03: z,
            m10: z, m11: two_near_z.div(height), m12: z, m13: z,
            m20: z, m21: z, m22: range, m23: o.neg(),
            m30: z, m31: z, m32: range.mul(near_z), m33: z,
        }
    }

    /// Builds a perspective projection from a vertical field of view and
    /// the aspect ratio `width / height`.
    pub fn perspective_fov(fov: T, aspect: T, near_z: T, far_z: T) -> (r: Self)
        requires
            Self::spec_perspective_fov_ok(fov, aspect, near_z, far_z),
        ensures
            r == Self::spec_perspective_fov(fov, aspect, near_z, far_z),
    {
        let z = T::zero();
        let o = T::one();
        let (sin, cos) = T::half().mul(fov).sin_cos();
        let f = cos.div(sin);
        let range = far_z.div(near_z.sub(far_z));
        Matrix {
            m00: f.div(aspect), m01: z, m02: z, m03: z,
            m10: z, m11: f, m12: z, m13: z,
            m20: z, m21: z, m22: range, m23: o.neg(),
            m30: z, m31: z, m32: range.mul(near_z), m33: z,
        }
    }
}

impl<T: Scalar> Matrix<T> {
    /// Whether a view matrix can be built: the direction and up vectors
    /// are non-zero and finite, and both normalisations admit their
    /// divisions.
    pub open spec fn spec_look_to_ok(dir: Vector3<T>, up: Vector3<T>) -> bool {
        let zero_v = (Vector3 {
            x: T::spec_zero(),
            y: T::spec_zero(),
            z: T::spec_zero(),
        });
        let r2 = dir.spec_neg().spec_normalize();
        dir != zero_v && !dir.spec_is_infinite() && up != zero_v && !up.spec_is_infinite()
            && dir.spec_neg().spec_normalize_ok() && up.spec_cross(r2).spec_normalize_ok()
    }

    /// The view matrix looking from `eye` along `dir` as a specification
    /// value: its columns are the camera's right, up, and forward basis
    /// vectors, and its translation row carries the eye offset.
    pub open spec fn spec_look_to(eye: Vector3<T>, dir: Vector3<T>, up: Vector3<T>) -> Self {
        let neg_eye = eye.spec_neg();
        let r2 = dir.spec_neg().spec_normalize();
        let r0 = up.spec_cross(r2).spec_normalize();
        let r1 = r2.spec_cross(r0);
        let d0 = r0.dot_spec(neg_eye);
        let d1 = r1.dot_spec(neg_eye);
        let d2 = r2.dot_spec(neg_eye);
        Matrix {
            m00: r0.x, m01: r1.x, m02: r2.x, m03: T::spec_zero(),
            m10: r0.y, m11: r1.y, m12: r2.y, m13: T::spec_zero(),
            m20: r0.z, m21: r1.z, m22: r2.z, m23: T::spec_zero(),
            m30: d0, m31: d1, m32: d2, m33: T::spec_one(),
        }
    }

    /// Builds a view matrix looking from `eye` towards `focus`.
    pub fn look_at(eye: Vector3<T>, focus: Vector3<T>, up: Vector3<T>) -> (r: Self)
        requires
            Self::spec_look_to_ok(focus.spec_sub(eye), up),
        ensures
            r == Self::spec_look_to(eye, focus.spec_sub(eye), up),
    {
        Self::look_to(eye, focus.sub(eye), up)
    }

    /// Builds a view matrix looking from `eye` along `dir`. The direction
    /// and up vectors must be non-zero and finite: a degenerate camera
    /// basis cannot be resolved.
    pub fn look_to(eye: Vector3<T>, dir: Vector3<T>, up: Vector3<T>) -> (r: Self)
        requires
            Self::spec_look_to_ok(dir, up),
        ensures
            r == Self::spec_look_to(eye, dir, up),
    {
        let z = T::zero();
        let o = T::one();
        let neg_eye = eye.neg();
        let neg_dir = dir.neg();
        let r2 = neg_dir.normalize();
        let r0 = up.cross(&r2).normalize();
        let r1 = r2.cross(&r0);
        let d0 = r0.dot(&neg_eye);
        let d1 = r1.dot(&neg_eye);
        let d2 = r2.dot(&neg_eye);
        Matrix {
            m00: r0.x, m01: r1.x, m02: r2.x, m03: z,
            m10: r0.y, m11: r1.y, m12: r2.y, m13: z,
            m20: r0.z, m21: r1.z, m22: r2.z, m23: z,
            m30: d0, m31: d1, m32: d2, m33: o,
        }
    }
}

} // verus!
