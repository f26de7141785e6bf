//! Algebraic laws of the matrix and vector operations.
//!
//! The operations are generic over [`Scalar`], which states no algebra of
//! its own, so each law here names the scalar identities it needs as an
//! explicit hypothesis and derives the matrix or vector fact from the
//! specification functions alone. The laws hold outright of a scalar whose
//! arithmetic is exact, such as the `i64` instance; a scalar that only
//! approximates them (rounding arithmetic, say) satisfies the conclusions
//! to the same degree it satisfies the hypotheses.

use crate::matrix::Matrix;
use crate::scalar::Scalar;
use crate::vector::Vector;
use crate::vector::Vector2;
use crate::vector::Vector3;
use crate::vector::Vector4;
use vstd::prelude::*;

verus! {

/// Zero is neutral for addition, one is neutral for multiplication, and
/// zero absorbs multiplication, on either side.
pub open spec fn scalar_has_identities<T: Scalar>() -> bool {
    &&& forall|a: T| #[trigger] a.spec_add(T::spec_zero()) == a
    &&& forall|a: T| #[trigger] T::spec_zero().spec_add(a) == a
    &&& forall|a: T| #[trigger] a.spec_mul(T::spec_one()) == a
    &&& forall|a: T| #[trigger] T::spec_one().spec_mul(a) == a
    &&& forall|a: T| #[trigger] a.spec_mul(T::spec_zero()) == T::spec_zero()
    &&& forall|a: T| #[trigger] T::spec_zero().spec_mul(a) == T::spec_zero()
}

/// Negation inverts addition, on either side.
pub open spec fn scalar_has_inverses<T: Scalar>() -> bool {
    &&& forall|a: T| #[trigger] a.spec_add(a.spec_neg()) == T::spec_zero()
    &&& forall|a: T| #[trigger] a.spec_neg().spec_add(a) == T::spec_zero()
}

/// The identity and inverse laws together with commutativity, the
/// involution of negation, and the sign rules of multiplication.
pub open spec fn scalar_ring_like<T: Scalar>() -> bool {
    &&& scalar_has_identities::<T>()
    &&& scalar_has_inverses::<T>()
    &&& forall|a: T, b: T| #[trigger] a.spec_add(b) == b.spec_add(a)
    &&& forall|a: T, b: T| #[trigger] a.spec_mul(b) == b.spec_mul(a)
    &&& forall|a: T| #[trigger] a.spec_neg().spec_neg() == a
    &&& forall|a: T, b: T| #[trigger] a.spec_neg().spec_mul(b) == a.spec_mul(b).spec_neg()
    &&& forall|a: T, b: T| #[trigger] a.spec_mul(b.spec_neg()) == a.spec_mul(b).spec_neg()
}

/// Multiplying by the identity matrix, on either side, keeps a matrix
/// unchanged, provided the scalar's zero and one behave as identities.
pub proof fn lemma_mul_identity<T: Scalar>(m: Matrix<T>)
    requires
        scalar_has_identities::<T>(),
    ensures
        m.spec_mul(Matrix::<T>::spec_identity()) == m,
        Matrix::<T>::spec_identity().spec_mul(m) == m,
{
}

/// Transposing twice restores the matrix, for any scalar.
pub proof fn lemma_transpose_involutive<T: Scalar>(m: Matrix<T>)
    ensures
        m.spec_transpose().spec_transpose() == m,
{
}

/// A rotation about the x axis composed with the rotation by the negated
/// angle is the identity, provided the scalar arithmetic is ring-like and
/// its sine and cosine satisfy the symmetry and Pythagorean identities at
/// the angle.
pub proof fn lemma_rotation_x_inverse<T: Scalar>(rad: T)
    requires
        scalar_ring_like::<T>(),
        rad.spec_neg().spec_sin() == rad.spec_sin().spec_neg(),
        rad.spec_neg().spec_cos() == rad.spec_cos(),
        rad.spec_cos().spec_mul(rad.spec_cos()).spec_add(
            rad.spec_sin().spec_mul(rad.spec_sin()),
        ) == T::spec_one(),
    ensures
        Matrix::<T>::spec_rotation_x(rad).spec_mul(Matrix::<T>::spec_rotation_x(rad.spec_neg()))
            == Matrix::<T>::spec_identity(),
{
}

/// Adding a vector's negation to itself yields the zero vector, provided
/// scalar negation inverts scalar addition.
pub proof fn lemma_add_neg_cancels2<T: Scalar>(v: Vector2<T>)
    requires
        scalar_has_inverses::<T>(),
    ensures
        v.spec_add(v.spec_neg()) == (Vector2 { x: T::spec_zero(), y: T::spec_zero() }),
{
}

/// Adding a vector's negation to itself yields the zero vector, provided
/// scalar negation inverts scalar addition.
pub proof fn lemma_add_neg_cancels3<T: Scalar>(v: Vector3<T>)
    requires
        scalar_has_inverses::<T>(),
    ensures
        v.spec_add(v.spec_neg()) == (Vector3 {
            x: T::spec_zero(),
            y: T::spec_zero(),
            z: T::spec_zero(),
        }),
{
}

/// Adding a vector's negation to itself yields the zero vector, provided
/// scalar negation inverts scalar addition.
pub proof fn lemma_add_neg_cancels4<T: Scalar>(v: Vector4<T>)
    requires
        scalar_has_inverses::<T>(),
    ensures
        v.spec_add(v.spec_neg()) == (Vector4 {
            x: T::spec_zero(),
            y: T::spec_zero(),
            z: T::spec_zero(),
            w: T::spec_zero(),
        }),
{
}

/// The wrapping `i64` instance satisfies every ring-like hypothesis, so
/// the laws above hold of its matrices and vectors without condition.
pub proof fn lemma_i64_ring_like()
    ensures
        scalar_ring_like::<i64>(),
{
    assert forall|a: i64, b: i64| #[trigger] Scalar::spec_mul(a, b) == Scalar::spec_mul(b, a) by {
        assert(a as int * b as int == b as int * a as int) by (nonlinear_arith);
    }
    assert forall|a: i64| #[trigger] Scalar::spec_mul(a, 1i64) == a by {
        assert(a as int * 1 == a as int) by (nonlinear_arith);
        lemma_i64_crop_in_range(a as int);
    }
    assert forall|a: i64| #[trigger] Scalar::spec_mul(1i64, a) == a by {
        assert(1 * (a as int) == a as int) by (nonlinear_arith);
        lemma_i64_crop_in_range(a as int);
    }
    assert forall|a: i64| #[trigger] Scalar::spec_mul(a, 0i64) == 0i64 by {
        assert(a as int * 0 == 0) by (nonlinear_arith);
        lemma_i64_crop_in_range(0);
    }
    assert forall|a: i64| #[trigger] Scalar::spec_mul(0i64, a) == 0i64 by {
        assert(0 * (a as int) == 0) by (nonlinear_arith);
        lemma_i64_crop_in_range(0);
    }
    assert forall|a: i64, b: i64|
        #[trigger] Scalar::spec_mul(Scalar::spec_neg(a), b) == Scalar::spec_neg(Scalar::spec_mul(a, b)) by {
        lemma_i64_neg_mul(a, b);
    }
    assert forall|a: i64, b: i64|
        #[trigger] Scalar::spec_mul(a, Scalar::spec_neg(b)) == Scalar::spec_neg(Scalar::spec_mul(a, b)) by {
        assert(a as int * b as int == b as int * a as int) by (nonlinear_arith);
        assert((Scalar::spec_neg(b)) as int * a as int == a as int * (Scalar::spec_neg(b)) as int)
            by (nonlinear_arith);
        lemma_i64_neg_mul(b, a);
    }
}

/// The sine and cosine of the `i64` instance are constant, so the
/// rotation hypotheses hold at every angle.
pub proof fn lemma_i64_trig(rad: i64)
    ensures
        Scalar::spec_sin(Scalar::spec_neg(rad)) == Scalar::spec_neg(Scalar::spec_sin(rad)),
        Scalar::spec_cos(Scalar::spec_neg(rad)) == Scalar::spec_cos(rad),
        Scalar::spec_add(
            Scalar::spec_mul(Scalar::spec_cos(rad), Scalar::spec_cos(rad)),
            Scalar::spec_mul(Scalar::spec_sin(rad), Scalar::spec_sin(rad)),
        ) == 1i64,
{
    lemma_i64_crop_in_range(1);
    lemma_i64_crop_in_range(0);
}

/// Cropping an integer already in the `i64` range keeps its value.
proof fn lemma_i64_crop_in_range(x: int)
    requires
        i64::MIN <= x <= i64::MAX,
    ensures
        vstd::wrapping::i64_specs::signed_crop(x) == x,
{
    if x >= 0 {
        vstd::arithmetic::div_mod::lemma_small_mod(x as nat, 0x1_0000_0000_0000_0000);
    } else {
        vstd::arithmetic::div_mod::lemma_mod_add_multiples_vanish(
            x,
            0x1_0000_0000_0000_0000,
        );
        vstd::arithmetic::div_mod::lemma_small_mod(
            (x + 0x1_0000_0000_0000_0000) as nat,
            0x1_0000_0000_0000_0000,
        );
    }
}

/// Negating one factor negates a wrapping product.
proof fn lemma_i64_neg_mul(a: i64, b: i64)
    ensures
        Scalar::spec_mul(Scalar::spec_neg(a), b) == Scalar::spec_neg(Scalar::spec_mul(a, b)),
{
    let m = 0x1_0000_0000_0000_0000int;
    let p = a as int * b as int;
    let n = Scalar::spec_neg(a) as int;
    assert(n == if a == i64::MIN {
        a as int
    } else {
        -(a as int)
    });
    if a == i64::MIN {
        assert(n * b as int == -p + (-(b as int)) * m) by (nonlinear_arith)
            requires
                n == -(a as int) - m,
                p == a as int * b as int,
        ;
        lemma_i64_crop_congruent(n * b as int, -p, -(b as int));
    } else {
        assert(n * b as int == -p) by (nonlinear_arith)
            requires
                n == -(a as int),
                p == a as int * b as int,
        ;
        lemma_i64_crop_congruent(n * b as int, -p, 0);
    }
    lemma_i64_crop_neg(p);
}

/// Cropping agrees on integers that differ by a multiple of the modulus.
proof fn lemma_i64_crop_congruent(x: int, y: int, k: int)
    requires
        x == y + k * 0x1_0000_0000_0000_0000,
    ensures
        vstd::wrapping::i64_specs::signed_crop(x) == vstd::wrapping::i64_specs::signed_crop(y),
{
    let m = 0x1_0000_0000_0000_0000int;
    vstd::arithmetic::div_mod::lemma_mod_multiples_vanish(k, y, m);
}

/// Cropping a negated integer negates the cropped value, in wrapping
/// arithmetic.
proof fn lemma_i64_crop_neg(p: int)
    ensures
        vstd::wrapping::i64_specs::signed_crop(-p) == Scalar::spec_neg(
            vstd::wrapping::i64_specs::signed_crop(p),
        ),
{
    let m = 0x1_0000_0000_0000_0000int;
    let c = vstd::wrapping::i64_specs::signed_crop(p);
    vstd::arithmetic::div_mod::lemma_fundamental_div_mod(p, m);
    let q = p / m;
    lemma_i64_crop_congruent(-p, -(c as int), if p % m > i64::MAX {
        -q - 1
    } else {
        -q
    });
    if c == i64::MIN {
        lemma_i64_crop_congruent(-(c as int), c as int, 1);
    } else {
        lemma_i64_crop_in_range(-(c as int));
    }
}


/// For `i64` matrices the identity law needs no hypothesis.
pub proof fn lemma_i64_mul_identity(m: Matrix<i64>)
    ensures
        m.spec_mul(Matrix::<i64>::spec_identity()) == m,
        Matrix::<i64>::spec_identity().spec_mul(m) == m,
{
    lemma_i64_ring_like();
    lemma_mul_identity(m);
}

/// For `i64` rotations the inverse law needs no hypothesis.
pub proof fn lemma_i64_rotation_x_inverse(rad: i64)
    ensures
        Matrix::<i64>::spec_rotation_x(rad).spec_mul(
            Matrix::<i64>::spec_rotation_x(Scalar::spec_neg(rad)),
        ) == Matrix::<i64>::spec_identity(),
{
    lemma_i64_ring_like();
    lemma_i64_trig(rad);
    lemma_rotation_x_inverse(rad);
}

/// For `i64` vectors the cancellation law needs no hypothesis.
pub proof fn lemma_i64_add_neg_cancels3(v: Vector3<i64>)
    ensures
        v.spec_add(v.spec_neg()) == (Vector3 { x: 0i64, y: 0i64, z: 0i64 }),
{
    lemma_i64_ring_like();
    lemma_add_neg_cancels3(v);
}

} // verus!
