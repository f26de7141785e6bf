//! Fixed-arity vectors over an abstract scalar.
//!
//! The three vector types share one contract, the [`Vector`] trait: a value
//! is viewed as four lanes, of which the first `arity` are meaningful and
//! the rest read as zero. Every operation's postcondition pins each lane of
//! the result in terms of the scalar's specification functions.

use crate::matrix::Matrix;
use crate::matrix::Row;
use crate::scalar::Scalar;
use vstd::prelude::*;

verus! {

/// A plane vector of two scalar lanes.
#[derive(Clone, Copy, PartialEq, Debug)]
pub struct Vector2<T> {
    pub x: T,
    pub y: T,
}

/// A spatial vector of three scalar lanes.
#[derive(Clone, Copy, PartialEq, Debug)]
pub struct Vector3<T> {
    pub x: T,
    pub y: T,
    pub z: T,
}

/// A homogeneous vector of four scalar lanes.
#[derive(Clone, Copy, PartialEq, Debug)]
pub struct Vector4<T> {
    pub x: T,
    pub y: T,
    pub z: T,
    pub w: T,
}

/// The operations every vector arity supports.
///
/// A vector is viewed through [`Vector::lane`] as four scalar lanes; the
/// lanes at and beyond [`Vector::arity`] always read as zero, which is how a
/// two- or three-lane vector behaves wherever four lanes are expected.
pub trait Vector<T: Scalar>: Sized + Copy {
    /// How many leading lanes carry the vector's own components.
    spec fn arity() -> int;

    /// The scalar in lane `i`; zero outside `0 .. arity`.
    spec fn lane(self, i: int) -> T;

    /// The arity is two, three, or four.
    proof fn lemma_arity()
        ensures
            2 <= Self::arity() <= 4,
    ;

    /// Lanes outside `0 .. arity` hold zero.
    proof fn lemma_lane_default(self, i: int)
        requires
            i < 0 || i >= Self::arity(),
        ensures
            self.lane(i) == T::spec_zero(),
    ;

    /// The dot product of the meaningful lanes, summed from lane zero
    /// upward.
    open spec fn dot_spec(self, other: Self) -> T {
        if Self::arity() == 2 {
            self.lane(0).spec_mul(other.lane(0)).spec_add(self.lane(1).spec_mul(other.lane(1)))
        } else if Self::arity() == 3 {
            self.lane(0).spec_mul(other.lane(0)).spec_add(
                self.lane(1).spec_mul(other.lane(1)),
            ).spec_add(self.lane(2).spec_mul(other.lane(2)))
        } else {
            self.lane(0).spec_mul(other.lane(0)).spec_add(
                self.lane(1).spec_mul(other.lane(1)),
            ).spec_add(self.lane(2).spec_mul(other.lane(2))).spec_add(
                self.lane(3).spec_mul(other.lane(3)),
            )
        }
    }

    /// The lane a permute index selects: lanes of `self` for 0 to 3,
    /// lanes of `other` for 4 to 7.
    open spec fn permute_pick(self, other: Self, p: int) -> T {
        if p < 4 {
            self.lane(p)
        } else {
            other.lane(p - 4)
        }
    }

    /// Lane `j` of the vector mapped through `m` as a point: the
    /// meaningful lanes weight the leading rows and, below arity four, the
    /// translation row is added unweighted.
    open spec fn transform_point_spec(self, m: Matrix<T>, j: int) -> T {
        if Self::arity() == 2 {
            self.lane(0).spec_mul(m.entry(0, j)).spec_add(
                self.lane(1).spec_mul(m.entry(1, j)),
            ).spec_add(m.entry(3, j))
        } else if Self::arity() == 3 {
            self.lane(0).spec_mul(m.entry(0, j)).spec_add(
                self.lane(1).spec_mul(m.entry(1, j)),
            ).spec_add(self.lane(2).spec_mul(m.entry(2, j))).spec_add(m.entry(3, j))
        } else {
            self.lane(0).spec_mul(m.entry(0, j)).spec_add(
                self.lane(1).spec_mul(m.entry(1, j)),
            ).spec_add(self.lane(2).spec_mul(m.entry(2, j))).spec_add(
                self.lane(3).spec_mul(m.entry(3, j)),
            )
        }
    }

    /// Lane `j` of the vector mapped through `m` as a direction: the
    /// meaningful lanes weight the leading rows and no translation is
    /// added.
    open spec fn transform_direction_spec(self, m: Matrix<T>, j: int) -> T {
        if Self::arity() == 2 {
            self.lane(0).spec_mul(m.entry(0, j)).spec_add(self.lane(1).spec_mul(m.entry(1, j)))
        } else if Self::arity() == 3 {
            self.lane(0).spec_mul(m.entry(0, j)).spec_add(
                self.lane(1).spec_mul(m.entry(1, j)),
            ).spec_add(self.lane(2).spec_mul(m.entry(2, j)))
        } else {
            self.lane(0).spec_mul(m.entry(0, j)).spec_add(
                self.lane(1).spec_mul(m.entry(1, j)),
            ).spec_add(self.lane(2).spec_mul(m.entry(2, j))).spec_add(
                self.lane(3).spec_mul(m.entry(3, j)),
            )
        }
    }

    /// The all-zero vector.
    fn zero() -> (r: Self)
        ensures
            forall|i: int| 0 <= i < Self::arity() ==> #[trigger] r.lane(i) == T::spec_zero(),
    ;

    /// The all-one vector.
    fn one() -> (r: Self)
        ensures
            forall|i: int| 0 <= i < Self::arity() ==> #[trigger] r.lane(i) == T::spec_one(),
    ;

    /// Every lane holds the scalar's positive infinity.
    fn infinity() -> (r: Self)
        ensures
            forall|i: int| 0 <= i < Self::arity() ==> #[trigger] r.lane(i) == T::spec_infinity(),
    ;

    /// Every lane holds the scalar's not-a-number value.
    fn nan() -> (r: Self)
        ensures
            forall|i: int| 0 <= i < Self::arity() ==> #[trigger] r.lane(i) == T::spec_nan(),
    ;

    /// Every lane holds the scalar's epsilon.
    fn epsilon() -> (r: Self)
        ensures
            forall|i: int| 0 <= i < Self::arity() ==> #[trigger] r.lane(i) == T::spec_epsilon(),
    ;

    /// Every lane holds `value`.
    fn replicate(value: T) -> (r: Self)
        ensures
            forall|i: int| 0 <= i < Self::arity() ==> #[trigger] r.lane(i) == value,
    ;

    /// The sum of the lanewise products, added up from lane zero.
    fn dot(&self, other: &Self) -> (r: T)
        ensures
            r == self.dot_spec(*other),
    ;

    /// Rebuilds the vector from its own lanes selected by index.
    fn swizzle(&self, e0: usize, e1: usize, e2: usize, e3: usize) -> (r: Self)
        requires
            e0 < 4,
            e1 < 4,
            Self::arity() > 2 ==> e2 < 4,
            Self::arity() > 3 ==> e3 < 4,
        ensures
            r.lane(0) == self.lane(e0 as int),
            r.lane(1) == self.lane(e1 as int),
            Self::arity() > 2 ==> r.lane(2) == self.lane(e2 as int),
            Self::arity() > 3 ==> r.lane(3) == self.lane(e3 as int),
    ;

    /// Rebuilds the vector from the lanes of `self` (indices 0 to 3) and
    /// `other` (indices 4 to 7).
    fn permute(&self, other: &Self, p0: usize, p1: usize, p2: usize, p3: usize) -> (r: Self)
        requires
            p0 < 8,
            p1 < 8,
            Self::arity() > 2 ==> p2 < 8,
            Self::arity() > 3 ==> p3 < 8,
        ensures
            r.lane(0) == self.permute_pick(*other, p0 as int),
            r.lane(1) == self.permute_pick(*other, p1 as int),
            Self::arity() > 2 ==> r.lane(2) == self.permute_pick(*other, p2 as int),
            Self::arity() > 3 ==> r.lane(3) == self.permute_pick(*other, p3 as int),
    ;

    /// Maps the vector through `matrix` as a point: the lanes weight the
    /// leading matrix rows and, below arity four, the translation row is
    /// added.
    fn transform(&self, matrix: &Matrix<T>) -> (r: Self)
        ensures
            forall|j: int|
                0 <= j < Self::arity() ==> #[trigger] r.lane(j) == self.transform_point_spec(
                    *matrix,
                    j,
                ),
    ;

    /// Maps the vector through `matrix` as a direction: the lanes weight
    /// the leading matrix rows and the translation row is ignored.
    fn transform_direction(&self, matrix: &Matrix<T>) -> (r: Self)
        ensures
            forall|j: int|
                0 <= j < Self::arity() ==> #[trigger] r.lane(j)
                    == self.transform_direction_spec(*matrix, j),
    ;

    /// The lanewise minimum.
    fn min(&self, other: &Self) -> (r: Self)
        ensures
            forall|i: int|
                0 <= i < Self::arity() ==> #[trigger] r.lane(i) == self.lane(i).spec_min(
                    other.lane(i),
                ),
    ;

    /// The lanewise maximum.
    fn max(&self, other: &Self) -> (r: Self)
        ensures
            forall|i: int|
                0 <= i < Self::arity() ==> #[trigger] r.lane(i) == self.lane(i).spec_max(
                    other.lane(i),
                ),
    ;

    /// Each lane rounded to the nearest integral value.
    fn round(&self) -> (r: Self)
        ensures
            forall|i: int|
                0 <= i < Self::arity() ==> #[trigger] r.lane(i) == self.lane(i).spec_round(),
    ;

    /// Each lane with its fractional part dropped.
    fn trunc(&self) -> (r: Self)
        ensures
            forall|i: int|
                0 <= i < Self::arity() ==> #[trigger] r.lane(i) == self.lane(i).spec_trunc(),
    ;

    /// Each lane rounded down.
    fn floor(&self) -> (r: Self)
        ensures
            forall|i: int|
                0 <= i < Self::arity() ==> #[trigger] r.lane(i) == self.lane(i).spec_floor(),
    ;

    /// Each lane rounded up.
    fn ceil(&self) -> (r: Self)
        ensures
            forall|i: int|
                0 <= i < Self::arity() ==> #[trigger] r.lane(i) == self.lane(i).spec_ceil(),
    ;

    /// Each lane forced into `min ..= max`, by taking the maximum with
    /// `min` and then the minimum with `max`.
    fn clamp(&self, min: &Self, max: &Self) -> (r: Self)
        requires
            forall|i: int|
                0 <= i < Self::arity() ==> #[trigger] min.lane(i).spec_is_lt(max.lane(i)),
        ensures
            forall|i: int|
                0 <= i < Self::arity() ==> #[trigger] r.lane(i) == self.lane(i).spec_max(
                    min.lane(i),
                ).spec_min(max.lane(i)),
    ;

    /// The fused lanewise `self * mul + add`.
    fn multiply_add(&self, mul: &Self, add: &Self) -> (r: Self)
        ensures
            forall|i: int|
                0 <= i < Self::arity() ==> #[trigger] r.lane(i) == self.lane(i).spec_mul(
                    mul.lane(i),
                ).spec_add(add.lane(i)),
    ;

    /// Every lane replaced by lane zero.
    fn splat_x(&self) -> (r: Self)
        ensures
            forall|i: int| 0 <= i < Self::arity() ==> #[trigger] r.lane(i) == self.lane(0),
    ;

    /// Every lane replaced by lane one.
    fn splat_y(&self) -> (r: Self)
        ensures
            forall|i: int| 0 <= i < Self::arity() ==> #[trigger] r.lane(i) == self.lane(1),
    ;

    /// Every lane replaced by lane two, which is zero below arity three.
    fn splat_z(&self) -> (r: Self)
        ensures
            forall|i: int| 0 <= i < Self::arity() ==> #[trigger] r.lane(i) == self.lane(2),
    ;

    /// Every lane replaced by lane three, which is zero below arity four.
    fn splat_w(&self) -> (r: Self)
        ensures
            forall|i: int| 0 <= i < Self::arity() ==> #[trigger] r.lane(i) == self.lane(3),
    ;
}

impl<T: Scalar> Vector<T> for Vector2<T> {
    open spec fn arity() -> int {
        2
    }

    open spec fn lane(self, i: int) -> T {
        if i == 0 {
            self.x
        } else if i == 1 {
            self.y
        } else {
            T::spec_zero()
        }
    }

    proof fn lemma_arity() {
    }

    proof fn lemma_lane_default(self, i: int) {
    }

    fn zero() -> Self {
        Self::replicate(T::zero())
    }

    fn one() -> Self {
        Self::replicate(T::one())
    }

    fn infinity() -> Self {
        Self::replicate(T::infinity())
    }

    fn nan() -> Self {
        Self::replicate(T::nan())
    }

    fn epsilon() -> Self {
        Self::replicate(T::epsilon())
    }

    fn replicate(value: T) -> Self {
        Vector2 { x: value, y: value }
    }

    fn dot(&self, other: &Self) -> T {
        self.x.mul(other.x).add(self.y.mul(other.y))
    }

    fn swizzle(&self, e0: usize, e1: usize, _e2: usize, _e3: usize) -> Self {
        Vector2 { x: self.index(e0), y: self.index(e1) }
    }

    fn permute(&self, other: &Self, p0: usize, p1: usize, _p2: usize, _p3: usize) -> Self {
        let x = if p0 < 4 {
            self.index(p0)
        } else {
            other.index(p0 - 4)
        };
        let y = if p1 < 4 {
            self.index(p1)
        } else {
            other.index(p1 - 4)
        };
        Vector2 { x, y }
    }

    fn transform(&self, matrix: &Matrix<T>) -> Self {
        let x = self.x.mul(matrix.m00).add(self.y.mul(matrix.m10)).add(matrix.m30);
        let y = self.x.mul(matrix.m01).add(self.y.mul(matrix.m11)).add(matrix.m31);
        Vector2 { x, y }
    }

    fn transform_direction(&self, matrix: &Matrix<T>) -> Self {
        let x = self.x.mul(matrix.m00).add(self.y.mul(matrix.m10));
        let y = self.x.mul(matrix.m01).add(self.y.mul(matrix.m11));
        Vector2 { x, y }
    }

    fn min(&self, other: &Self) -> Self {
        Vector2 { x: self.x.min(other.x), y: self.y.min(other.y) }
    }

    fn max(&self, other: &Self) -> Self {
        Vector2 { x: self.x.max(other.x), y: self.y.max(other.y) }
    }

    fn round(&self) -> Self {
        Vector2 { x: self.x.round(), y: self.y.round() }
    }

    fn trunc(&self) -> Self {
        Vector2 { x: self.x.trunc(), y: self.y.trunc() }
    }

    fn floor(&self) -> Self {
        Vector2 { x: self.x.floor(), y: self.y.floor() }
    }

    fn ceil(&self) -> Self {
        Vector2 { x: self.x.ceil(), y: self.y.ceil() }
    }

    fn clamp(&self, min: &Self, max: &Self) -> Self {
        Vector2 { x: self.x.max(min.x).min(max.x), y: self.y.max(min.y).min(max.y) }
    }

    fn multiply_add(&self, mul: &Self, add: &Self) -> Self {
        Vector2 { x: self.x.mul(mul.x).add(add.x), y: self.y.mul(mul.y).add(add.y) }
    }

    fn splat_x(&self) -> Self {
        Self::replicate(self.x)
    }

    fn splat_y(&self) -> Self {
        Self::replicate(self.y)
    }

    fn splat_z(&self) -> Self {
        Self::replicate(T::zero())
    }

    fn splat_w(&self) -> Self {
        Self::replicate(T::zero())
    }
}

impl<T: Scalar> Vector2<T> {
    /// Builds the vector from its two components.
    pub fn new(x: T, y: T) -> (r: Self)
        ensures
            r == (Vector2 { x, y }),
    {
        Vector2 { x, y }
    }

    /// Reads lane `i`; lanes two and three read as zero.
    pub fn index(&self, i: usize) -> (r: T)
        requires
            i < 4,
        ensures
            r == self.lane(i as int),
    {
        if i == 0 {
            self.x
        } else if i == 1 {
            self.y
        } else {
            T::zero()
        }
    }
}

impl<T: Scalar> Vector2<T> {
    /// The lanewise sum as a specification value.
    pub open spec fn spec_add(self, rhs: Self) -> Self {
        Vector2 { x: self.x.spec_add(rhs.x), y: self.y.spec_add(rhs.y) }
    }

    /// The lanewise difference as a specification value.
    pub open spec fn spec_sub(self, rhs: Self) -> Self {
        Vector2 { x: self.x.spec_sub(rhs.x), y: self.y.spec_sub(rhs.y) }
    }

    /// The lanewise product as a specification value.
    pub open spec fn spec_mul(self, rhs: Self) -> Self {
        Vector2 { x: self.x.spec_mul(rhs.x), y: self.y.spec_mul(rhs.y) }
    }

    /// Whether every lane of `self` may be divided by the matching lane of
    /// `rhs`.
    pub open spec fn spec_div_ok(self, rhs: Self) -> bool {
        self.x.spec_div_ok(rhs.x) && self.y.spec_div_ok(rhs.y)
    }

    /// The lanewise quotient as a specification value.
    pub open spec fn spec_div(self, rhs: Self) -> Self {
        Vector2 { x: self.x.spec_div(rhs.x), y: self.y.spec_div(rhs.y) }
    }

    /// The lanewise negation as a specification value.
    pub open spec fn spec_neg(self) -> Self {
        Vector2 { x: self.x.spec_neg(), y: self.y.spec_neg() }
    }

    /// Every lane multiplied by `s` on the right, as a specification
    /// value.
    pub open spec fn spec_scale(self, s: T) -> Self {
        Vector2 { x: self.x.spec_mul(s), y: self.y.spec_mul(s) }
    }

    /// Whether every lane of `self` may be divided by `s`.
    pub open spec fn spec_scale_div_ok(self, s: T) -> bool {
        self.x.spec_div_ok(s) && self.y.spec_div_ok(s)
    }

    /// Every lane divided by `s`, as a specification value.
    pub open spec fn spec_scale_div(self, s: T) -> Self {
        Vector2 { x: self.x.spec_div(s), y: self.y.spec_div(s) }
    }

    /// Every lane multiplied by `s` on the left, as a specification
    /// value.
    pub open spec fn spec_scale_left(s: T, v: Self) -> Self {
        Vector2 { x: s.spec_mul(v.x), y: s.spec_mul(v.y) }
    }

    /// The lanewise sum.
    pub fn add(self, rhs: Self) -> (r: Self)
        ensures
            r == self.spec_add(rhs),
    {
        Vector2 { x: self.x.add(rhs.x), y: self.y.add(rhs.y) }
    }

    /// Adds `rhs` onto `self`, lane by lane.
    pub fn add_assign(&mut self, rhs: Self)
        ensures
            *final(self) == old(self).spec_add(rhs),
    {
        self.x = self.x.add(rhs.x);
        self.y = self.y.add(rhs.y);
    }

    /// The lanewise difference.
    pub fn sub(self, rhs: Self) -> (r: Self)
        ensures
            r == self.spec_sub(rhs),
    {
        Vector2 { x: self.x.sub(rhs.x), y: self.y.sub(rhs.y) }
    }

    /// Subtracts `rhs` from `self`, lane by lane.
    pub fn sub_assign(&mut self, rhs: Self)
        ensures
            *final(self) == old(self).spec_sub(rhs),
    {
        self.x = self.x.sub(rhs.x);
        self.y = self.y.sub(rhs.y);
    }

    /// The lanewise product.
    pub fn mul(self, rhs: Self) -> (r: Self)
        ensures
            r == self.spec_mul(rhs),
    {
        Vector2 { x: self.x.mul(rhs.x), y: self.y.mul(rhs.y) }
    }

    /// Multiplies `self` by `rhs`, lane by lane.
    pub fn mul_assign(&mut self, rhs: Self)
        ensures
            *final(self) == old(self).spec_mul(rhs),
    {
        self.x = self.x.mul(rhs.x);
        self.y = self.y.mul(rhs.y);
    }

    /// The lanewise quotient.
    pub fn div(self, rhs: Self) -> (r: Self)
        requires
            self.spec_div_ok(rhs),
        ensures
            r == self.spec_div(rhs),
    {
        Vector2 { x: self.x.div(rhs.x), y: self.y.div(rhs.y) }
    }

    /// Divides `self` by `rhs`, lane by lane.
    pub fn div_assign(&mut self, rhs: Self)
        requires
            old(self).spec_div_ok(rhs),
        ensures
            *final(self) == old(self).spec_div(rhs),
    {
        self.x = self.x.div(rhs.x);
        self.y = self.y.div(rhs.y);
    }

    /// Every lane multiplied by the scalar `s`.
    pub fn scale(self, s: T) -> (r: Self)
        ensures
            r == self.spec_scale(s),
    {
        Vector2 { x: self.x.mul(s), y: self.y.mul(s) }
    }

    /// Multiplies every lane of `self` by the scalar `s`.
    pub fn scale_assign(&mut self, s: T)
        ensures
            *final(self) == old(self).spec_scale(s),
    {
        self.x = self.x.mul(s);
        self.y = self.y.mul(s);
    }

    /// Every lane divided by the scalar `s`.
    pub fn scale_div(self, s: T) -> (r: Self)
        requires
            self.spec_scale_div_ok(s),
        ensures
            r == self.spec_scale_div(s),
    {
        Vector2 { x: self.x.div(s), y: self.y.div(s) }
    }

    /// Divides every lane of `self` by the scalar `s`.
    pub fn scale_div_assign(&mut self, s: T)
        requires
            old(self).spec_scale_div_ok(s),
        ensures
            *final(self) == old(self).spec_scale_div(s),
    {
        self.x = self.x.div(s);
        self.y = self.y.div(s);
    }

    /// The scalar `s` multiplied onto every lane from the left.
    pub fn scale_left(s: T, v: Self) -> (r: Self)
        ensures
            r == Self::spec_scale_left(s, v),
    {
        Vector2 { x: s.mul(v.x), y: s.mul(v.y) }
    }

    /// The lanewise negation.
    pub fn neg(self) -> (r: Self)
        ensures
            r == self.spec_neg(),
    {
        Vector2 { x: self.x.neg(), y: self.y.neg() }
    }

    /// Builds the vector from the first two entries of a matrix row.
    pub fn from_row(row: Row<T>) -> (r: Self)
        ensures
            r == (Vector2 { x: row[0], y: row[1] }),
    {
        Vector2 { x: row[0], y: row[1] }
    }
}

impl<T: Scalar> Vector<T> for Vector3<T> {

    open spec fn arity() -> int {
        3
    }

    open spec fn lane(self, i: int) -> T {
        if i == 0 {
            self.x
        } else if i == 1 {
            self.y
        } else if i == 2 {
            self.z
        } else {
            T::spec_zero()
        }
    }

    proof fn lemma_arity() {
    }

    proof fn lemma_lane_default(self, i: int) {
    }

    fn zero() -> Self {
        Self::replicate(T::zero())
    }

    fn one() -> Self {
        Self::replicate(T::one())
    }

    fn infinity() -> Self {
        Self::replicate(T::infinity())
    }

    fn nan() -> Self {
        Self::replicate(T::nan())
    }

    fn epsilon() -> Self {
        Self::replicate(T::epsilon())
    }

    fn replicate(value: T) -> Self {
        Vector3 { x: value, y: value, z: value }
    }

    fn dot(&self, other: &Self) -> T {
        self.x.mul(other.x).add(self.y.mul(other.y)).add(self.z.mul(other.z))
    }

    fn swizzle(&self, e0: usize, e1: usize, e2: usize, _e3: usize) -> Self {
        Vector3 { x: self.index(e0), y: self.index(e1), z: self.index(e2) }
    }

    fn permute(&self, other: &Self, p0: usize, p1: usize, p2: usize, _p3: usize) -> Self {
        let x = if p0 < 4 {
            self.index(p0)
        } else {
            other.index(p0 - 4)
        };
        let y = if p1 < 4 {
            self.index(p1)
        } else {
            other.index(p1 - 4)
        };
        let z = if p2 < 4 {
            self.index(p2)
        } else {
            other.index(p2 - 4)
        };
        Vector3 { x, y, z }
    }

    fn transform(&self, matrix: &Matrix<T>) -> Self {
        let x = self.x.mul(matrix.m00).add(self.y.mul(matrix.m10)).add(self.z.mul(matrix.m20)).add(
            matrix.m30,
        );
        let y = self.x.mul(matrix.m01).add(self.y.mul(matrix.m11)).add(self.z.mul(matrix.m21)).add(
            matrix.m31,
        );
        let z = self.x.mul(matrix.m02).add(self.y.mul(matrix.m12)).add(self.z.mul(matrix.m22)).add(
            matrix.m32,
        );
        Vector3 { x, y, z }
    }

    fn transform_direction(&self, matrix: &Matrix<T>) -> Self {
        let x = self.x.mul(matrix.m00).add(self.y.mul(matrix.m10)).add(self.z.mul(matrix.m20));
        let y = self.x.mul(matrix.m01).add(self.y.mul(matrix.m11)).add(self.z.mul(matrix.m21));
        let z = self.x.mul(matrix.m02).add(self.y.mul(matrix.m12)).add(self.z.mul(matrix.m22));
        Vector3 { x, y, z }
    }

    fn min(&self, other: &Self) -> Self {
        Vector3 { x: self.x.min(other.x), y: self.y.min(other.y), z: self.z.min(other.z) }
    }

    fn max(&self, other: &Self) -> Self {
        Vector3 { x: self.x.max(other.x), y: self.y.max(other.y), z: self.z.max(other.z) }
    }

    fn round(&self) -> Self {
        Vector3 { x: self.x.round(), y: self.y.round(), z: self.z.round() }
    }

    fn trunc(&self) -> Self {
        Vector3 { x: self.x.trunc(), y: self.y.trunc(), z: self.z.trunc() }
    }

    fn floor(&self) -> Self {
        Vector3 { x: self.x.floor(), y: self.y.floor(), z: self.z.floor() }
    }

    fn ceil(&self) -> Self {
        Vector3 { x: self.x.ceil(), y: self.y.ceil(), z: self.z.ceil() }
    }

    fn clamp(&self, min: &Self, max: &Self) -> Self {
        Vector3 {
            x: self.x.max(min.x).min(max.x),
            y: self.y.max(min.y).min(max.y),
            z: self.z.max(min.z).min(max.z),
        }
    }

    fn multiply_add(&self, mul: &Self, add: &Self) -> Self {
        Vector3 {
            x: self.x.mul(mul.x).add(add.x),
            y: self.y.mul(mul.y).add(add.y),
            z: self.z.mul(mul.z).add(add.z),
        }
    }

    fn splat_x(&self) -> Self {
        Self::replicate(self.x)
    }

    fn splat_y(&self) -> Self {
        Self::replicate(self.y)
    }

    fn splat_z(&self) -> Self {
        Self::replicate(self.z)
    }

    fn splat_w(&self) -> Self {
        Self::replicate(T::zero())
    }
}

impl<T: Scalar> Vector3<T> {
    /// Builds the vector from its three components.
    pub fn new(x: T, y: T, z: T) -> (r: Self)
        ensures
            r == (Vector3 { x, y, z }),
    {
        Vector3 { x, y, z }
    }

    /// Reads lane `i`; lane three reads as zero.
    pub fn index(&self, i: usize) -> (r: T)
        requires
            i < 4,
        ensures
            r == self.lane(i as int),
    {
        if i == 0 {
            self.x
        } else if i == 1 {
            self.y
        } else if i == 2 {
            self.z
        } else {
            T::zero()
        }
    }
}

impl<T: Scalar> Vector3<T> {
    /// The lanewise sum as a specification value.
    pub open spec fn spec_add(self, rhs: Self) -> Self {
        Vector3 { x: self.x.spec_add(rhs.x), y: self.y.spec_add(rhs.y), z: self.z.spec_add(rhs.z) }
    }

    /// The lanewise difference as a specification value.
    pub open spec fn spec_sub(self, rhs: Self) -> Self {
        Vector3 { x: self.x.spec_sub(rhs.x), y: self.y.spec_sub(rhs.y), z: self.z.spec_sub(rhs.z) }
    }

    /// The lanewise product as a specification value.
    pub open spec fn spec_mul(self, rhs: Self) -> Self {
        Vector3 { x: self.x.spec_mul(rhs.x), y: self.y.spec_mul(rhs.y), z: self.z.spec_mul(rhs.z) }
    }

    /// Whether every lane of `self` may be divided by the matching lane of
    /// `rhs`.
    pub open spec fn spec_div_ok(self, rhs: Self) -> bool {
        self.x.spec_div_ok(rhs.x) && self.y.spec_div_ok(rhs.y) && self.z.spec_div_ok(rhs.z)
    }

    /// The lanewise quotient as a specification value.
    pub open spec fn spec_div(self, rhs: Self) -> Self {
        Vector3 { x: self.x.spec_div(rhs.x), y: self.y.spec_div(rhs.y), z: self.z.spec_div(rhs.z) }
    }

    /// The lanewise negation as a specification value.
    pub open spec fn spec_neg(self) -> Self {
        Vector3 { x: self.x.spec_neg(), y: self.y.spec_neg(), z: self.z.spec_neg() }
    }

    /// Every lane multiplied by `s` on the right, as a specification
    /// value.
    pub open spec fn spec_scale(self, s: T) -> Self {
        Vector3 { x: self.x.spec_mul(s), y: self.y.spec_mul(s), z: self.z.spec_mul(s) }
    }

    /// Whether every lane of `self` may be divided by `s`.
    pub open spec fn spec_scale_div_ok(self, s: T) -> bool {
        self.x.spec_div_ok(s) && self.y.spec_div_ok(s) && self.z.spec_div_ok(s)
    }

    /// Every lane divided by `s`, as a specification value.
    pub open spec fn spec_scale_div(self, s: T) -> Self {
        Vector3 { x: self.x.spec_div(s), y: self.y.spec_div(s), z: self.z.spec_div(s) }
    }

    /// Every lane multiplied by `s` on the left, as a specification
    /// value.
    pub open spec fn spec_scale_left(s: T, v: Self) -> Self {
        Vector3 { x: s.spec_mul(v.x), y: s.spec_mul(v.y), z: s.spec_mul(v.z) }
    }

    /// The lanewise sum.
    pub fn add(self, rhs: Self) -> (r: Self)
        ensures
            r == self.spec_add(rhs),
    {
        Vector3 { x: self.x.add(rhs.x), y: self.y.add(rhs.y), z: self.z.add(rhs.z) }
    }

    /// Adds `rhs` onto `self`, lane by lane.
    pub fn add_assign(&mut self, rhs: Self)
        ensures
            *final(self) == old(self).spec_add(rhs),
    {
        self.x = self.x.add(rhs.x);
        self.y = self.y.add(rhs.y);
        self.z = self.z.add(rhs.z);
    }

    /// The lanewise difference.
    pub fn sub(self, rhs: Self) -> (r: Self)
        ensures
            r == self.spec_sub(rhs),
    {
        Vector3 { x: self.x.sub(rhs.x), y: self.y.sub(rhs.y), z: self.z.sub(rhs.z) }
    }

    /// Subtracts `rhs` from `self`, lane by lane.
    pub fn sub_assign(&mut self, rhs: Self)
        ensures
            *final(self) == old(self).spec_sub(rhs),
    {
        self.x = self.x.sub(rhs.x);
        self.y = self.y.sub(rhs.y);
        self.z = self.z.sub(rhs.z);
    }

    /// The lanewise product.
    pub fn mul(self, rhs: Self) -> (r: Self)
        ensures
            r == self.spec_mul(rhs),
    {
        Vector3 { x: self.x.mul(rhs.x), y: self.y.mul(rhs.y), z: self.z.mul(rhs.z) }
    }

    /// Multiplies `self` by `rhs`, lane by lane.
    pub fn mul_assign(&mut self, rhs: Self)
        ensures
            *final(self) == old(self).spec_mul(rhs),
    {
        self.x = self.x.mul(rhs.x);
        self.y = self.y.mul(rhs.y);
        self.z = self.z.mul(rhs.z);
    }

    /// The lanewise quotient.
    pub fn div(self, rhs: Self) -> (r: Self)
        requires
            self.spec_div_ok(rhs),
        ensures
            r == self.spec_div(rhs),
    {
        Vector3 { x: self.x.div(rhs.x), y: self.y.div(rhs.y), z: self.z.div(rhs.z) }
    }

    /// Divides `self` by `rhs`, lane by lane.
    pub fn div_assign(&mut self, rhs: Self)
        requires
            old(self).spec_div_ok(rhs),
        ensures
            *final(self) == old(self).spec_div(rhs),
    {
        self.x = self.x.div(rhs.x);
        self.y = self.y.div(rhs.y);
        self.z = self.z.div(rhs.z);
    }

    /// Every lane multiplied by the scalar `s`.
    pub fn scale(self, s: T) -> (r: Self)
        ensures
            r == self.spec_scale(s),
    {
        Vector3 { x: self.x.mul(s), y: self.y.mul(s), z: self.z.mul(s) }
    }

    /// Multiplies every lane of `self` by the scalar `s`.
    pub fn scale_assign(&mut self, s: T)
        ensures
            *final(self) == old(self).spec_scale(s),
    {
        self.x = self.x.mul(s);
        self.y = self.y.mul(s);
        self.z = self.z.mul(s);
    }

    /// Every lane divided by the scalar `s`.
    pub fn scale_div(self, s: T) -> (r: Self)
        requires
            self.spec_scale_div_ok(s),
        ensures
            r == self.spec_scale_div(s),
    {
        Vector3 { x: self.x.div(s), y: self.y.div(s), z: self.z.div(s) }
    }

    /// Divides every lane of `self` by the scalar `s`.
    pub fn scale_div_assign(&mut self, s: T)
        requires
            old(self).spec_scale_div_ok(s),
        ensures
            *final(self) == old(self).spec_scale_div(s),
    {
        self.x = self.x.div(s);
        self.y = self.y.div(s);
        self.z = self.z.div(s);
    }

    /// The scalar `s` multiplied onto every lane from the left.
    pub fn scale_left(s: T, v: Self) -> (r: Self)
        ensures
            r == Self::spec_scale_left(s, v),
    {
        Vector3 { x: s.mul(v.x), y: s.mul(v.y), z: s.mul(v.z) }
    }

    /// The lanewise negation.
    pub fn neg(self) -> (r: Self)
        ensures
            r == self.spec_neg(),
    {
        Vector3 { x: self.x.neg(), y: self.y.neg(), z: self.z.neg() }
    }

    /// Builds the vector from the leading entries of a matrix row.
    pub fn from_row(row: Row<T>) -> (r: Self)
        ensures
            r == (Vector3 { x: row[0], y: row[1], z: row[2] }),
    {
        Vector3 { x: row[0], y: row[1], z: row[2] }
    }
}

impl<T: Scalar> Vector3<T> {
    /// The cross product as a specification value.
    pub open spec fn spec_cross(self, other: Self) -> Self {
        Vector3 {
            x: self.y.spec_mul(other.z).spec_sub(self.z.spec_mul(other.y)),
            y: self.z.spec_mul(other.x).spec_sub(self.x.spec_mul(other.z)),
            z: self.x.spec_mul(other.y).spec_sub(self.y.spec_mul(other.x)),
        }
    }

    /// The length: the square root of the dot product with itself.
    pub open spec fn spec_length(self) -> T {
        self.dot_spec(self).spec_sqrt()
    }

    /// Whether the vector may be divided by its own length.
    pub open spec fn spec_normalize_ok(self) -> bool {
        self.spec_scale_div_ok(self.spec_length())
    }

    /// The vector scaled to unit length, as a specification value.
    pub open spec fn spec_normalize(self) -> Self {
        self.spec_scale_div(self.spec_length())
    }

    /// Whether any lane is infinite.
    pub open spec fn spec_is_infinite(self) -> bool {
        self.x.spec_is_infinite() || self.y.spec_is_infinite() || self.z.spec_is_infinite()
    }

    /// The standard right-handed cross product.
    pub fn cross(&self, other: &Self) -> (r: Self)
        ensures
            r == self.spec_cross(*other),
    {
        Vector3 {
            x: self.y.mul(other.z).sub(self.z.mul(other.y)),
            y: self.z.mul(other.x).sub(self.x.mul(other.z)),
            z: self.x.mul(other.y).sub(self.y.mul(other.x)),
        }
    }

    /// The vector divided by its own length.
    pub fn normalize(self) -> (r: Self)
        requires
            self.spec_normalize_ok(),
        ensures
            r == self.spec_normalize(),
    {
        let len = self.dot(&self).sqrt();
        self.scale_div(len)
    }

    /// Whether any lane is infinite.
    pub fn is_infinite(&self) -> (r: bool)
        ensures
            r == self.spec_is_infinite(),
    {
        self.x.is_infinite() || self.y.is_infinite() || self.z.is_infinite()
    }
}

impl<T: Scalar> Vector<T> for Vector4<T> {

    open spec fn arity() -> int {
        4
    }

    open spec fn lane(self, i: int) -> T {
        if i == 0 {
            self.x
        } else if i == 1 {
            self.y
        } else if i == 2 {
            self.z
        } else if i == 3 {
            self.w
        } else {
            T::spec_zero()
        }
    }

    proof fn lemma_arity() {
    }

    proof fn lemma_lane_default(self, i: int) {
    }

    fn zero() -> Self {
        Self::replicate(T::zero())
    }

    fn one() -> Self {
        Self::replicate(T::one())
    }

    fn infinity() -> Self {
        Self::replicate(T::infinity())
    }

    fn nan() -> Self {
        Self::replicate(T::nan())
    }

    fn epsilon() -> Self {
        Self::replicate(T::epsilon())
    }

    fn replicate(value: T) -> Self {
        Vector4 { x: value, y: value, z: value, w: value }
    }

    fn dot(&self, other: &Self) -> T {
        self.x.mul(other.x).add(self.y.mul(other.y)).add(self.z.mul(other.z)).add(
            self.w.mul(other.w),
        )
    }

    fn swizzle(&self, e0: usize, e1: usize, e2: usize, e3: usize) -> Self {
        Vector4 { x: self.index(e0), y: self.index(e1), z: self.index(e2), w: self.index(e3) }
    }

    fn permute(&self, other: &Self, p0: usize, p1: usize, p2: usize, p3: usize) -> Self {
        let x = if p0 < 4 {
            self.index(p0)
        } else {
            other.index(p0 - 4)
        };
        let y = if p1 < 4 {
            self.index(p1)
        } else {
            other.index(p1 - 4)
        };
        let z = if p2 < 4 {
            self.index(p2)
        } else {
            other.index(p2 - 4)
        };
        let w = if p3 < 4 {
            self.index(p3)
        } else {
            other.index(p3 - 4)
        };
        Vector4 { x, y, z, w }
    }

    fn transform(&self, matrix: &Matrix<T>) -> Self {
        let x = self.x.mul(matrix.m00).add(self.y.mul(matrix.m10)).add(self.z.mul(matrix.m20)).add(
            self.w.mul(matrix.m30),
        );
        let y = self.x.mul(matrix.m01).add(self.y.mul(matrix.m11)).add(self.z.mul(matrix.m21)).add(
            self.w.mul(matrix.m31),
        );
        let z = self.x.mul(matrix.m02).add(self.y.mul(matrix.m12)).add(self.z.mul(matrix.m22)).add(
            self.w.mul(matrix.m32),
        );
        let w = self.x.mul(matrix.m03).add(self.y.mul(matrix.m13)).add(self.z.mul(matrix.m23)).add(
            self.w.mul(matrix.m33),
        );
        Vector4 { x, y, z, w }
    }

    fn transform_direction(&self, matrix: &Matrix<T>) -> Self {
        self.transform(matrix)
    }

    fn min(&self, other: &Self) -> Self {
        Vector4 {
            x: self.x.min(other.x),
            y: self.y.min(other.y),
            z: self.z.min(other.z),
            w: self.w.min(other.w),
        }
    }

    fn max(&self, other: &Self) -> Self {
        Vector4 {
            x: self.x.max(other.x),
            y: self.y.max(other.y),
            z: self.z.max(other.z),
            w: self.w.max(other.w),
        }
    }

    fn round(&self) -> Self {
        Vector4 { x: self.x.round(), y: self.y.round(), z: self.z.round(), w: self.w.round() }
    }

    fn trunc(&self) -> Self {
        Vector4 { x: self.x.trunc(), y: self.y.trunc(), z: self.z.trunc(), w: self.w.trunc() }
    }

    fn floor(&self) -> Self {
        Vector4 { x: self.x.floor(), y: self.y.floor(), z: self.z.floor(), w: self.w.floor() }
    }

    fn ceil(&self) -> Self {
        Vector4 { x: self.x.ceil(), y: self.y.ceil(), z: self.z.ceil(), w: self.w.ceil() }
    }

    fn clamp(&self, min: &Self, max: &Self) -> Self {
        Vector4 {
            x: self.x.max(min.x).min(max.x),
            y: self.y.max(min.y).min(max.y),
            z: self.z.max(min.z).min(max.z),
            w: self.w.max(min.w).min(max.w),
        }
    }

    fn multiply_add(&self, mul: &Self, add: &Self) -> Self {
        Vector4 {
            x: self.x.mul(mul.x).add(add.x),
            y: self.y.mul(mul.y).add(add.y),
            z: self.z.mul(mul.z).add(add.z),
            w: self.w.mul(mul.w).add(add.w),
        }
    }

    fn splat_x(&self) -> Self {
        Self::replicate(self.x)
    }

    fn splat_y(&self) -> Self {
        Self::replicate(self.y)
    }

    fn splat_z(&self) -> Self {
        Self::replicate(self.z)
    }

    fn splat_w(&self) -> Self {
        Self::replicate(self.w)
    }
}

impl<T: Scalar> Vector4<T> {
    /// Builds the vector from its four components.
    pub fn new(x: T, y: T, z: T, w: T) -> (r: Self)
        ensures
            r == (Vector4 { x, y, z, w }),
    {
        Vector4 { x, y, z, w }
    }

    /// Reads lane `i`.
    pub fn index(&self, i: usize) -> (r: T)
        requires
            i < 4,
        ensures
            r == self.lane(i as int),
    {
        if i == 0 {
            self.x
        } else if i == 1 {
            self.y
        } else if i == 2 {
            self.z
        } else {
            self.w
        }
    }
}

impl<T: Scalar> Vector4<T> {
    /// The lanewise sum as a specification value.
    pub open spec fn spec_add(self, rhs: Self) -> Self {
        Vector4 {
            x: self.x.spec_add(rhs.x),
            y: self.y.spec_add(rhs.y),
            z: self.z.spec_add(rhs.z),
            w: self.w.spec_add(rhs.w),
        }
    }

    /// The lanewise difference as a specification value.
    pub open spec fn spec_sub(self, rhs: Self) -> Self {
        Vector4 {
            x: self.x.spec_sub(rhs.x),
            y: self.y.spec_sub(rhs.y),
            z: self.z.spec_sub(rhs.z),
            w: self.w.spec_sub(rhs.w),
        }
    }

    /// The lanewise product as a specification value.
    pub open spec fn spec_mul(self, rhs: Self) -> Self {
        Vector4 {
            x: self.x.spec_mul(rhs.x),
            y: self.y.spec_mul(rhs.y),
            z: self.z.spec_mul(rhs.z),
            w: self.w.spec_mul(rhs.w),
        }
    }

    /// Whether every lane of `self` may be divided by the matching lane of
    /// `rhs`.
    pub open spec fn spec_div_ok(self, rhs: Self) -> bool {
        self.x.spec_div_ok(rhs.x) && self.y.spec_div_ok(rhs.y)
            && self.z.spec_div_ok(rhs.z) && self.w.spec_div_ok(rhs.w)
    }

    /// The lanewise quotient as a specification value.
    pub open spec fn spec_div(self, rhs: Self) -> Self {
        Vector4 {
            x: self.x.spec_div(rhs.x),
            y: self.y.spec_div(rhs.y),
            z: self.z.spec_div(rhs.z),
            w: self.w.spec_div(rhs.w),
        }
    }

    /// The lanewise negation as a specification value.
    pub open spec fn spec_neg(self) -> Self {
        Vector4 {
            x: self.x.spec_neg(),
            y: self.y.spec_neg(),
            z: self.z.spec_neg(),
            w: self.w.spec_neg(),
        }
    }

    /// Every lane multiplied by `s` on the right, as a specification
    /// value.
    pub open spec fn spec_scale(self, s: T) -> Self {
        Vector4 {
            x: self.x.spec_mul(s),
            y: self.y.spec_mul(s),
            z: self.z.spec_mul(s),
            w: self.w.spec_mul(s),
        }
    }

    /// Whether every lane of `self` may be divided by `s`.
    pub open spec fn spec_scale_div_ok(self, s: T) -> bool {
        self.x.spec_div_ok(s) && self.y.spec_div_ok(s)
            && self.z.spec_div_ok(s) && self.w.spec_div_ok(s)
    }

    /// Every lane divided by `s`, as a specification value.
    pub open spec fn spec_scale_div(self, s: T) -> Self {
        Vector4 {
            x: self.x.spec_div(s),
            y: self.y.spec_div(s),
            z: self.z.spec_div(s),
            w: self.w.spec_div(s),
        }
    }

    /// Every lane multiplied by `s` on the left, as a specification
    /// value.
    pub open spec fn spec_scale_left(s: T, v: Self) -> Self {
        Vector4 { x: s.spec_mul(v.x), y: s.spec_mul(v.y), z: s.spec_mul(v.z), w: s.spec_mul(v.w) }
    }

    /// The lanewise sum.
    pub fn add(self, rhs: Self) -> (r: Self)
        ensures
            r == self.spec_add(rhs),
    {
        Vector4 {
            x: self.x.add(rhs.x),
            y: self.y.add(rhs.y),
            z: self.z.add(rhs.z),
            w: self.w.add(rhs.w),
        }
    }

    /// Adds `rhs` onto `self`, lane by lane.
    pub fn add_assign(&mut self, rhs: Self)
        ensures
            *final(self) == old(self).spec_add(rhs),
    {
        self.x = self.x.add(rhs.x);
        self.y = self.y.add(rhs.y);
        self.z = self.z.add(rhs.z);
        self.w = self.w.add(rhs.w);
    }

    /// The lanewise difference.
    pub fn sub(self, rhs: Self) -> (r: Self)
        ensures
            r == self.spec_sub(rhs),
    {
        Vector4 {
            x: self.x.sub(rhs.x),
            y: self.y.sub(rhs.y),
            z: self.z.sub(rhs.z),
            w: self.w.sub(rhs.w),
        }
    }

    /// Subtracts `rhs` from `self`, lane by lane.
    pub fn sub_assign(&mut self, rhs: Self)
        ensures
            *final(self) == old(self).spec_sub(rhs),
    {
        self.x = self.x.sub(rhs.x);
        self.y = self.y.sub(rhs.y);
        self.z = self.z.sub(rhs.z);
        self.w = self.w.sub(rhs.w);
    }

    /// The lanewise product.
    pub fn mul(self, rhs: Self) -> (r: Self)
        ensures
            r == self.spec_mul(rhs),
    {
        Vector4 {
            x: self.x.mul(rhs.x),
            y: self.y.mul(rhs.y),
            z: self.z.mul(rhs.z),
            w: self.w.mul(rhs.w),
        }
    }

    /// Multiplies `self` by `rhs`, lane by lane.
    pub fn mul_assign(&mut self, rhs: Self)
        ensures
            *final(self) == old(self).spec_mul(rhs),
    {
        self.x = self.x.mul(rhs.x);
        self.y = self.y.mul(rhs.y);
        self.z = self.z.mul(rhs.z);
        self.w = self.w.mul(rhs.w);
    }

    /// The lanewise quotient.
    pub fn div(self, rhs: Self) -> (r: Self)
        requires
            self.spec_div_ok(rhs),
        ensures
            r == self.spec_div(rhs),
    {
        Vector4 {
            x: self.x.div(rhs.x),
            y: self.y.div(rhs.y),
            z: self.z.div(rhs.z),
            w: self.w.div(rhs.w),
        }
    }

    /// Divides `self` by `rhs`, lane by lane.
    pub fn div_assign(&mut self, rhs: Self)
        requires
            old(self).spec_div_ok(rhs),
        ensures
            *final(self) == old(self).spec_div(rhs),
    {
        self.x = self.x.div(rhs.x);
        self.y = self.y.div(rhs.y);
        self.z = self.z.div(rhs.z);
        self.w = self.w.div(rhs.w);
    }

    /// Every lane multiplied by the scalar `s`.
    pub fn scale(self, s: T) -> (r: Self)
        ensures
            r == self.spec_scale(s),
    {
        Vector4 { x: self.x.mul(s), y: self.y.mul(s), z: self.z.mul(s), w: self.w.mul(s) }
    }

    /// Multiplies every lane of `self` by the scalar `s`.
    pub fn scale_assign(&mut self, s: T)
        ensures
            *final(self) == old(self).spec_scale(s),
    {
        self.x = self.x.mul(s);
        self.y = self.y.mul(s);
        self.z = self.z.mul(s);
        self.w = self.w.mul(s);
    }

    /// Every lane divided by the scalar `s`.
    pub fn scale_div(self, s: T) -> (r: Self)
        requires
            self.spec_scale_div_ok(s),
        ensures
            r == self.spec_scale_div(s),
    {
        Vector4 { x: self.x.div(s), y: self.y.div(s), z: self.z.div(s), w: self.w.div(s) }
    }

    /// Divides every lane of `self` by the scalar `s`.
    pub fn scale_div_assign(&mut self, s: T)
        requires
            old(self).spec_scale_div_ok(s),
        ensures
            *final(self) == old(self).spec_scale_div(s),
    {
        self.x = self.x.div(s);
        self.y = self.y.div(s);
        self.z = self.z.div(s);
        self.w = self.w.div(s);
    }

    /// The scalar `s` multiplied onto every lane from the left.
    pub fn scale_left(s: T, v: Self) -> (r: Self)
        ensures
            r == Self::spec_scale_left(s, v),
    {
        Vector4 { x: s.mul(v.x), y: s.mul(v.y), z: s.mul(v.z), w: s.mul(v.w) }
    }

    /// The lanewise negation.
    pub fn neg(self) -> (r: Self)
        ensures
            r == self.spec_neg(),
    {
        Vector4 { x: self.x.neg(), y: self.y.neg(), z: self.z.neg(), w: self.w.neg() }
    }

    /// Builds the vector from the leading entries of a matrix row.
    pub fn from_row(row: Row<T>) -> (r: Self)
        ensures
            r == (Vector4 { x: row[0], y: row[1], z: row[2], w: row[3] }),
    {
        Vector4 { x: row[0], y: row[1], z: row[2], w: row[3] }
    }
}

} // verus!

