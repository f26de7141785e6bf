//! The scalar abstraction: every lane of a vector or matrix holds a value of
//! a type implementing [`Scalar`]. Each executable operation is pinned to a
//! specification function of the same name, so the vector and matrix
//! contracts elsewhere in the crate can state results exactly without fixing
//! the scalar type. The crate ships one fully verified instance, `i64` with
//! wrapping arithmetic; an embedding application is free to supply another
//! instance (for example a floating-point wrapper) outside the verified
//! world.

use vstd::prelude::*;

verus! {

/// A scalar number with the arithmetic that the vector and matrix types
/// need.
///
/// Every executable method returns exactly the value of its `spec_*`
/// counterpart; an implementation defines both and proves that they agree.
/// The trait states no algebraic laws: whether an operation commutes or has
/// an inverse is a property of the instance, which the lemmas of this crate
/// take as explicit hypotheses where they need it.
pub trait Scalar: Sized + Copy {
    /// The additive identity.
    spec fn spec_zero() -> Self;

    /// The multiplicative identity.
    spec fn spec_one() -> Self;

    /// One half, as near as the instance can express it.
    spec fn spec_half() -> Self;

    /// The instance's stand-in for positive infinity.
    spec fn spec_infinity() -> Self;

    /// The instance's stand-in for a not-a-number value.
    spec fn spec_nan() -> Self;

    /// The smallest positive increment the instance distinguishes.
    spec fn spec_epsilon() -> Self;

    /// The sum of `self` and `other`.
    spec fn spec_add(self, other: Self) -> Self;

    /// The difference of `self` and `other`.
    spec fn spec_sub(self, other: Self) -> Self;

    /// The product of `self` and `other`.
    spec fn spec_mul(self, other: Self) -> Self;

    /// Whether `self` may be divided by `other`.
    spec fn spec_div_ok(self, other: Self) -> bool;

    /// The quotient of `self` by `other`, meaningful when
    /// [`Scalar::spec_div_ok`] holds.
    spec fn spec_div(self, other: Self) -> Self;

    /// The negation of `self`.
    spec fn spec_neg(self) -> Self;

    /// The smaller of `self` and `other`.
    spec fn spec_min(self, other: Self) -> Self;

    /// The larger of `self` and `other`.
    spec fn spec_max(self, other: Self) -> Self;

    /// `self` rounded to the nearest integral value.
    spec fn spec_round(self) -> Self;

    /// `self` with any fractional part dropped.
    spec fn spec_trunc(self) -> Self;

    /// The greatest integral value not above `self`.
    spec fn spec_floor(self) -> Self;

    /// The least integral value not below `self`.
    spec fn spec_ceil(self) -> Self;

    /// The square root of `self`.
    spec fn spec_sqrt(self) -> Self;

    /// The sine of the angle `self`.
    spec fn spec_sin(self) -> Self;

    /// The cosine of the angle `self`.
    spec fn spec_cos(self) -> Self;

    /// Whether `self` is ordered strictly below `other`.
    spec fn spec_is_lt(self, other: Self) -> bool;

    /// Whether `self` is an infinite value.
    spec fn spec_is_infinite(self) -> bool;

    fn zero() -> (r: Self)
        ensures
            r == Self::spec_zero(),
    ;

    fn one() -> (r: Self)
        ensures
            r == Self::spec_one(),
    ;

    fn half() -> (r: Self)
        ensures
            r == Self::spec_half(),
    ;

    fn infinity() -> (r: Self)
        ensures
            r == Self::spec_infinity(),
    ;

    fn nan() -> (r: Self)
        ensures
            r == Self::spec_nan(),
    ;

    fn epsilon() -> (r: Self)
        ensures
            r == Self::spec_epsilon(),
    ;

    fn add(self, other: Self) -> (r: Self)
        ensures
            r == self.spec_add(other),
    ;

    fn sub(self, other: Self) -> (r: Self)
        ensures
            r == self.spec_sub(other),
    ;

    fn mul(self, other: Self) -> (r: Self)
        ensures
            r == self.spec_mul(other),
    ;

    fn div(self, other: Self) -> (r: Self)
        requires
            self.spec_div_ok(other),
        ensures
            r == self.spec_div(other),
    ;

    fn neg(self) -> (r: Self)
        ensures
            r == self.spec_neg(),
    ;

    fn min(self, other: Self) -> (r: Self)
        ensures
            r == self.spec_min(other),
    ;

    fn max(self, other: Self) -> (r: Self)
        ensures
            r == self.spec_max(other),
    ;

    fn round(self) -> (r: Self)
        ensures
            r == self.spec_round(),
    ;

    fn trunc(self) -> (r: Self)
        ensures
            r == self.spec_trunc(),
    ;

    fn floor(self) -> (r: Self)
        ensures
            r == self.spec_floor(),
    ;

    fn ceil(self) -> (r: Self)
        ensures
            r == self.spec_ceil(),
    ;

    fn sqrt(self) -> (r: Self)
        ensures
            r == self.spec_sqrt(),
    ;

    fn sin_cos(self) -> (r: (Self, Self))
        ensures
            r.0 == self.spec_sin(),
            r.1 == self.spec_cos(),
    ;

    fn is_infinite(self) -> (r: bool)
        ensures
            r == self.spec_is_infinite(),
    ;
}

/// The integer square root: the greatest `r` with `r * r <= n`.
pub open spec fn isqrt_spec(n: nat) -> nat
    decreases n,
{
    if n == 0 {
        0
    } else {
        let r = isqrt_spec((n - 1) as nat);
        if (r + 1) * (r + 1) <= n {
            r + 1
        } else {
            r
        }
    }
}

/// The integer square root squares to at most its argument, and the next
/// integer up squares to more.
pub proof fn lemma_isqrt_bounds(n: nat)
    ensures
        isqrt_spec(n) * isqrt_spec(n) <= n,
        n < (isqrt_spec(n) + 1) * (isqrt_spec(n) + 1),
    decreases n,
{
    let s = isqrt_spec(n);
    if n > 0 {
        let r = isqrt_spec((n - 1) as nat);
        lemma_isqrt_bounds((n - 1) as nat);
        if (r + 1) * (r + 1) <= n {
            assert(s == r + 1);
            assert((r + 1) * (r + 1) < (r + 2) * (r + 2)) by (nonlinear_arith);
            assert(n <= (r + 1) * (r + 1));
            assert(s * s <= n);
            assert(n < (s + 1) * (s + 1));
        } else {
            assert(s == r);
            assert(s * s <= n);
            assert(n < (s + 1) * (s + 1));
        }
    } else {
        assert(s == 0);
        assert((s + 1) * (s + 1) == 1) by (nonlinear_arith)
            requires
                s == 0,
        ;
    }
}

/// Any value characterised by the square-root bounds is the integer square
/// root.
pub proof fn lemma_isqrt_unique(n: nat, r: nat)
    requires
        r * r <= n,
        n < (r + 1) * (r + 1),
    ensures
        r == isqrt_spec(n),
{
    let s = isqrt_spec(n);
    lemma_isqrt_bounds(n);
    if r < s {
        assert((r + 1) * (r + 1) <= s * s) by (nonlinear_arith)
            requires
                r + 1 <= s,
        ;
    }
    if s < r {
        assert((s + 1) * (s + 1) <= r * r) by (nonlinear_arith)
            requires
                s + 1 <= r,
        ;
    }
}

/// The integer square root of a 64-bit value, found by binary search.
fn isqrt_u64(n: u64) -> (r: u64)
    ensures
        r == isqrt_spec(n as nat),
{
    let mut lo: u64 = 0;
    let mut hi: u64 = 4294967296;
    while lo + 1 < hi
        invariant
            lo < hi <= 4294967296,
            (lo as nat) * (lo as nat) <= n as nat,
            (n as nat) < (hi as nat) * (hi as nat),
        decreases hi - lo,
    {
        let mid = lo + (hi - lo) / 2;
        proof {
            assert((mid as nat) * (mid as nat) < 18446744073709551616) by (nonlinear_arith)
                requires
                    mid < 4294967296,
            ;
        }
        if mid * mid <= n {
            lo = mid;
        } else {
            hi = mid;
        }
    }
    proof {
        lemma_isqrt_unique(n as nat, lo as nat);
    }
    lo
}

impl Scalar for i64 {
    open spec fn spec_zero() -> i64 {
        0
    }

    open spec fn spec_one() -> i64 {
        1
    }

    /// One half truncates to zero among the integers.
    open spec fn spec_half() -> i64 {
        0
    }

    /// The largest value stands in for positive infinity.
    open spec fn spec_infinity() -> i64 {
        i64::MAX
    }

    /// The smallest value stands in for a not-a-number value.
    open spec fn spec_nan() -> i64 {
        i64::MIN
    }

    /// Adjacent integers differ by one.
    open spec fn spec_epsilon() -> i64 {
        1
    }

    open spec fn spec_add(self, other: i64) -> i64 {
        self.wrapping_add(other)
    }

    open spec fn spec_sub(self, other: i64) -> i64 {
        self.wrapping_sub(other)
    }

    open spec fn spec_mul(self, other: i64) -> i64 {
        self.wrapping_mul(other)
    }

    open spec fn spec_div_ok(self, other: i64) -> bool {
        other != 0 && !(self == i64::MIN && other == -1)
    }

    open spec fn spec_div(self, other: i64) -> i64 {
        self.checked_div(other).unwrap()
    }

    open spec fn spec_neg(self) -> i64 {
        (0i64).wrapping_sub(self)
    }

    open spec fn spec_min(self, other: i64) -> i64 {
        if self <= other {
            self
        } else {
            other
        }
    }

    open spec fn spec_max(self, other: i64) -> i64 {
        if self >= other {
            self
        } else {
            other
        }
    }

    /// Integers are already integral, so rounding keeps the value.
    open spec fn spec_round(self) -> i64 {
        self
    }

    open spec fn spec_trunc(self) -> i64 {
        self
    }

    open spec fn spec_floor(self) -> i64 {
        self
    }

    open spec fn spec_ceil(self) -> i64 {
        self
    }

    /// The integer square root; a negative argument yields the
    /// not-a-number stand-in.
    open spec fn spec_sqrt(self) -> i64 {
        if self < 0 {
            i64::MIN
        } else {
            isqrt_spec(self as nat) as i64
        }
    }

    /// The integer instance has no trigonometry: every angle takes the
    /// sine of zero.
    open spec fn spec_sin(self) -> i64 {
        0
    }

    /// The integer instance has no trigonometry: every angle takes the
    /// cosine of zero.
    open spec fn spec_cos(self) -> i64 {
        1
    }

    open spec fn spec_is_lt(self, other: i64) -> bool {
        self < other
    }

    open spec fn spec_is_infinite(self) -> bool {
        self == i64::MAX || self == -9223372036854775807i64
    }

    fn zero() -> i64 {
        0
    }

    fn one() -> i64 {
        1
    }

    fn half() -> i64 {
        0
    }

    fn infinity() -> i64 {
        i64::MAX
    }

    fn nan() -> i64 {
        i64::MIN
    }

    fn epsilon() -> i64 {
        1
    }

    fn add(self, other: i64) -> i64 {
        self.wrapping_add(other)
    }

    fn sub(self, other: i64) -> i64 {
        self.wrapping_sub(other)
    }

    fn mul(self, other: i64) -> i64 {
        self.wrapping_mul(other)
    }

    fn div(self, other: i64) -> i64 {
        proof {
            let x = self as int;
            let d = other as int;
            if x > 0 && d > 0 {
                vstd::arithmetic::div_mod::lemma_div_basics_4(x, d);
                vstd::arithmetic::div_mod::lemma_div_basics_5(x, d);
            } else if x < 0 && d < 0 {
                vstd::arithmetic::div_mod::lemma_div_basics_4(x * -1, d * -1);
                vstd::arithmetic::div_mod::lemma_div_basics_5(x * -1, d * -1);
                if d == -1 {
                    vstd::arithmetic::div_mod::lemma_div_basics_1(x * -1);
                } else {
                    vstd::arithmetic::div_mod::lemma_div_is_ordered_by_denominator(x * -1, 2, d * -1);
                    vstd::arithmetic::div_mod::lemma_div_is_ordered(x * -1, 9223372036854775808, 2);
                }
            } else if x < 0 {
                vstd::arithmetic::div_mod::lemma_div_basics_4(x * -1, d);
                vstd::arithmetic::div_mod::lemma_div_basics_5(x * -1, d);
            } else if x > 0 {
                vstd::arithmetic::div_mod::lemma_div_basics_4(x, d * -1);
                vstd::arithmetic::div_mod::lemma_div_basics_5(x, d * -1);
            }
            assert(self.checked_div(other) is Some);
        }
        self.checked_div(other).unwrap()
    }

    fn neg(self) -> i64 {
        (0i64).wrapping_sub(self)
    }

    fn min(self, other: i64) -> i64 {
        if self <= other {
            self
        } else {
            other
        }
    }

    fn max(self, other: i64) -> i64 {
        if self >= other {
            self
        } else {
            other
        }
    }

    fn round(self) -> i64 {
        self
    }

    fn trunc(self) -> i64 {
        self
    }

    fn floor(self) -> i64 {
        self
    }

    fn ceil(self) -> i64 {
        self
    }

    fn sqrt(self) -> i64 {
        if self < 0 {
            i64::MIN
        } else {
            let r = isqrt_u64(self as u64);
            proof {
                lemma_isqrt_bounds(self as nat);
                assert(isqrt_spec(self as nat) <= self as nat) by (nonlinear_arith)
                    requires
                        isqrt_spec(self as nat) * isqrt_spec(self as nat) <= self as nat,
                ;
            }
            r as i64
        }
    }

    fn sin_cos(self) -> (i64, i64) {
        (0, 1)
    }

    fn is_infinite(self) -> bool {
        self == i64::MAX || self == -9223372036854775807i64
    }
}

} // verus!
