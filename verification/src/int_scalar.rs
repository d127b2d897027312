//! An exact instantiation of the scalar abstraction: saturating 64-bit
//! integers, with angles measured in quarter turns.
//!
//! This scalar keeps the coordinate logic exactly computable.  Addition,
//! multiplication, negation and division saturate at the ends of the
//! `i64` range instead of overflowing; the square root is the integer
//! floor square root (zero for a negative argument, which has no square
//! root here); and the trigonometric operations read their argument as a
//! number of quarter turns, where cosine and sine are exact integers.
//! Rotation by a whole number of quarter turns is therefore exact, and
//! the rotation laws that hold of real numbers only up to rounding hold
//! of this scalar outright away from the saturation bounds.

use crate::scalar::Scalar;
use vstd::prelude::*;

verus! {

/// An exact integer scalar: a 64-bit integer with saturating arithmetic,
/// read as a number of quarter turns wherever an angle is expected.
#[derive(Clone, Copy, Debug, PartialEq, Eq, Structural)]
pub struct IntScalar {
    pub v: i64,
}

/// The nearest value an `i64` can hold to the integer `x`.
pub open spec fn clamp_to_i64(x: int) -> int {
    if x > i64::MAX as int {
        i64::MAX as int
    } else if x < i64::MIN as int {
        i64::MIN as int
    } else {
        x
    }
}

/// The quadrant of an angle of `v` quarter turns: `v` reduced to
/// `0`, `1`, `2` or `3` quarter turns.
pub open spec fn quadrant_of(v: int) -> int {
    v % 4
}

/// The cosine of `v` quarter turns: `1`, `0`, `-1`, `0` as the quadrant
/// runs through `0`, `1`, `2`, `3`.
pub open spec fn quarter_cos(v: int) -> int {
    let q = quadrant_of(v);
    if q == 0 {
        1
    } else if q == 2 {
        -1
    } else {
        0
    }
}

/// The sine of `v` quarter turns: `0`, `1`, `0`, `-1` as the quadrant
/// runs through `0`, `1`, `2`, `3`.
pub open spec fn quarter_sin(v: int) -> int {
    let q = quadrant_of(v);
    if q == 1 {
        1
    } else if q == 3 {
        -1
    } else {
        0
    }
}

/// The arctangent of the integer `a`, rounded to the nearest whole number
/// of quarter turns: the true arctangent lies strictly between a quarter
/// turn either way, it passes an eighth of a turn in magnitude exactly
/// where `|a|` passes `1`, and a tie (`|a| == 1`) rounds toward zero.
pub open spec fn quarter_atan(a: int) -> int {
    if a >= 2 {
        1
    } else if a <= -2 {
        -1
    } else {
        0
    }
}

/// Rust's truncating quotient of `a` and a nonzero `b`, written with the
/// Euclidean quotient of nonnegative operands.
pub open spec fn trunc_div(a: int, b: int) -> int {
    if a == 0 {
        0
    } else if a > 0 && b > 0 {
        a / b
    } else if a < 0 && b < 0 {
        (a * -1) / (b * -1)
    } else if a < 0 {
        ((a * -1) / b) * -1
    } else {
        (a / (b * -1)) * -1
    }
}

/// The truncating quotient of two `i64` values leaves the `i64` range
/// only for the least value divided by minus one.
pub proof fn lemma_trunc_div_in_range(a: int, b: int)
    requires
        i64::MIN <= a <= i64::MAX,
        i64::MIN <= b <= i64::MAX,
        b != 0,
        !(a == i64::MIN && b == -1),
    ensures
        i64::MIN <= trunc_div(a, b) <= i64::MAX,
{
    if a == 0 {
    } else if a > 0 && b > 0 {
        vstd::arithmetic::div_mod::lemma_div_pos_is_pos(a, b);
        vstd::arithmetic::div_mod::lemma_div_nonincreasing(a, b);
    } else if a < 0 && b < 0 {
        vstd::arithmetic::div_mod::lemma_div_pos_is_pos(a * -1, b * -1);
        vstd::arithmetic::div_mod::lemma_div_nonincreasing(a * -1, b * -1);
        if b <= -2 {
            vstd::arithmetic::div_mod::lemma_div_is_ordered_by_denominator(a * -1, 2, b * -1);
            vstd::arithmetic::div_mod::lemma_div_is_ordered(a * -1, -(i64::MIN as int), 2);
        } else {
            vstd::arithmetic::div_mod::lemma_div_basics(a * -1);
        }
    } else if a < 0 {
        vstd::arithmetic::div_mod::lemma_div_pos_is_pos(a * -1, b);
        vstd::arithmetic::div_mod::lemma_div_nonincreasing(a * -1, b);
    } else {
        vstd::arithmetic::div_mod::lemma_div_pos_is_pos(a, b * -1);
        vstd::arithmetic::div_mod::lemma_div_nonincreasing(a, b * -1);
    }
}

/// Whether `r` is the floor of the square root of `v`.
pub open spec fn is_floor_sqrt(v: int, r: int) -> bool {
    &&& 0 <= r
    &&& r * r <= v
    &&& (r + 1) * (r + 1) > v
}

/// The floor of the square root of a nonnegative `v`.
pub open spec fn floor_sqrt(v: int) -> int {
    choose|r: int| is_floor_sqrt(v, r)
}

/// No two integers are both the floor square root of `v`.
pub proof fn lemma_floor_sqrt_unique(v: int, a: int, b: int)
    requires
        is_floor_sqrt(v, a),
        is_floor_sqrt(v, b),
    ensures
        a == b,
{
    if a < b {
        assert((a + 1) * (a + 1) <= b * b) by (nonlinear_arith)
            requires
                0 <= a,
                a < b,
        ;
    }
    if b < a {
        assert((b + 1) * (b + 1) <= a * a) by (nonlinear_arith)
            requires
                0 <= b,
                b < a,
        ;
    }
}

/// Multiplication by a unit (`0`, `1` or `-1`), spelled out: products of
/// two symbolic values are otherwise opaque to the linear solver.  The
/// negation case asks that the other factor not be the least value, whose
/// exact negation the scalar cannot hold.
pub proof fn lemma_times_unit(u: IntScalar, a: IntScalar)
    requires
        -1 <= u.v <= 1,
    ensures
        u.v == 0 ==> u.spec_times(a) == (IntScalar { v: 0 }),
        u.v == 0 ==> a.spec_times(u) == (IntScalar { v: 0 }),
        u.v == 1 ==> u.spec_times(a) == a,
        u.v == 1 ==> a.spec_times(u) == a,
        u.v == -1 && a.v != i64::MIN ==> u.spec_times(a).v as int == -(a.v as int),
        u.v == -1 && a.v != i64::MIN ==> a.spec_times(u).v as int == -(a.v as int),
{
    if u.v == 0 {
        assert(u.v as int * a.v as int == 0 && a.v as int * u.v as int == 0) by (nonlinear_arith)
            requires
                u.v == 0,
        ;
    } else if u.v == 1 {
        assert(u.v as int * a.v as int == a.v as int && a.v as int * u.v as int
            == a.v as int) by (nonlinear_arith)
            requires
                u.v == 1,
        ;
    } else {
        assert(u.v as int * a.v as int == -(a.v as int) && a.v as int * u.v as int == -(
        a.v as int)) by (nonlinear_arith)
            requires
                u.v == -1,
        ;
    }
}

impl Scalar for IntScalar {
    /// The exact sum, saturating at the ends of the `i64` range.
    open spec fn spec_plus(self, other: Self) -> Self {
        IntScalar { v: clamp_to_i64(self.v + other.v) as i64 }
    }

    /// The exact product, saturating at the ends of the `i64` range.
    open spec fn spec_times(self, other: Self) -> Self {
        IntScalar { v: clamp_to_i64(self.v * other.v) as i64 }
    }

    /// The exact negation, saturating at the ends of the `i64` range.
    open spec fn spec_negate(self) -> Self {
        IntScalar { v: clamp_to_i64(-self.v) as i64 }
    }

    /// The truncating quotient, saturating at the ends of the `i64`
    /// range; zero when the divisor is zero (this scalar has no infinity
    /// to return).
    open spec fn spec_divide(self, other: Self) -> Self {
        if other.v == 0 {
            IntScalar { v: 0 }
        } else {
            IntScalar { v: clamp_to_i64(trunc_div(self.v as int, other.v as int)) as i64 }
        }
    }

    /// The floor of the square root; zero for a negative argument, which
    /// has no square root in this scalar.
    open spec fn spec_sqrt(self) -> Self {
        if self.v < 0 {
            IntScalar { v: 0 }
        } else {
            IntScalar { v: floor_sqrt(self.v as int) as i64 }
        }
    }

    /// The exact cosine of `self` quarter turns.
    open spec fn spec_cos(self) -> Self {
        IntScalar { v: quarter_cos(self.v as int) as i64 }
    }

    /// The exact sine of `self` quarter turns.
    open spec fn spec_sin(self) -> Self {
        IntScalar { v: quarter_sin(self.v as int) as i64 }
    }

    /// The arctangent, rounded to the nearest whole number of quarter
    /// turns.
    open spec fn spec_atan(self) -> Self {
        IntScalar { v: quarter_atan(self.v as int) as i64 }
    }

    fn plus(self, other: Self) -> (r: Self)
        ensures
            r == self.spec_plus(other),
    {
        match self.v.checked_add(other.v) {
            Some(s) => IntScalar { v: s },
            None => {
                if self.v > 0 {
                    IntScalar { v: i64::MAX }
                } else {
                    IntScalar { v: i64::MIN }
                }
            },
        }
    }

    fn times(self, other: Self) -> (r: Self)
        ensures
            r == self.spec_times(other),
    {
        match self.v.checked_mul(other.v) {
            Some(p) => IntScalar { v: p },
            None => {
                proof {
                    if self.v == 0 || other.v == 0 {
                        assert(self.v as int * other.v as int == 0) by (nonlinear_arith)
                            requires
                                self.v == 0 || other.v == 0,
                        ;
                    }
                    if (self.v < 0) == (other.v < 0) {
                        assert(self.v as int * other.v as int >= 0) by (nonlinear_arith)
                            requires
                                (self.v < 0) == (other.v < 0),
                        ;
                    } else {
                        assert(self.v as int * other.v as int <= 0) by (nonlinear_arith)
                            requires
                                (self.v < 0) != (other.v < 0),
                        ;
                    }
                }
                if (self.v < 0) == (other.v < 0) {
                    IntScalar { v: i64::MAX }
                } else {
                    IntScalar { v: i64::MIN }
                }
            },
        }
    }

    fn negate(self) -> (r: Self)
        ensures
            r == self.spec_negate(),
    {
        if self.v == i64::MIN {
            IntScalar { v: i64::MAX }
        } else {
            IntScalar { v: -self.v }
        }
    }

    fn divide(self, other: Self) -> (r: Self)
        ensures
            r == self.spec_divide(other),
    {
        if other.v == 0 {
            IntScalar { v: 0 }
        } else if self.v == i64::MIN && other.v == -1 {
            // the one quotient out of the i64 range: it saturates
            proof {
                vstd::arithmetic::div_mod::lemma_div_basics(i64::MIN as int * -1);
            }
            IntScalar { v: i64::MAX }
        } else {
            proof {
                lemma_trunc_div_in_range(self.v as int, other.v as int);
            }
            match self.v.checked_div(other.v) {
                Some(q) => IntScalar { v: q },
                // never taken: the quotient is in range here
                None => IntScalar { v: 0 },
            }
        }
    }

    fn sqrt(self) -> (r: Self)
        ensures
            r == self.spec_sqrt(),
    {
        if self.v < 0 {
            return IntScalar { v: 0 };
        }
        let v = self.v;
        let mut lo: i64 = 0;
        let mut hi: i64 = 3037000500;
        proof {
            assert(3037000500int * 3037000500int > i64::MAX as int);
        }
        while lo + 1 < hi
            invariant
                0 <= lo < hi <= 3037000500,
                lo * lo <= v as int,
                hi * hi > v as int,
            decreases hi - lo,
        {
            let mid: i64 = lo + (hi - lo) / 2;
            proof {
                assert(mid * mid <= 3037000499int * 3037000499int) by (nonlinear_arith)
                    requires
                        0 <= mid <= 3037000499,
                ;
            }
            if mid * mid <= v {
                lo = mid;
            } else {
                hi = mid;
            }
        }
        proof {
            assert(is_floor_sqrt(v as int, lo as int));
            assert(is_floor_sqrt(v as int, floor_sqrt(v as int))) by {
                assert(exists|r: int| is_floor_sqrt(v as int, r));
            }
            lemma_floor_sqrt_unique(v as int, lo as int, floor_sqrt(v as int));
        }
        IntScalar { v: lo }
    }

    fn cos(self) -> (r: Self)
        ensures
            r == self.spec_cos(),
    {
        let t: i64 = self.v % 4;
        let q: i64 = if t < 0 {
            t + 4
        } else {
            t
        };
        if q == 0 {
            IntScalar { v: 1 }
        } else if q == 2 {
            IntScalar { v: -1 }
        } else {
            IntScalar { v: 0 }
        }
    }

    fn sin(self) -> (r: Self)
        ensures
            r == self.spec_sin(),
    {
        let t: i64 = self.v % 4;
        let q: i64 = if t < 0 {
            t + 4
        } else {
            t
        };
        if q == 1 {
            IntScalar { v: 1 }
        } else if q == 3 {
            IntScalar { v: -1 }
        } else {
            IntScalar { v: 0 }
        }
    }

    fn atan(self) -> (r: Self)
        ensures
            r == self.spec_atan(),
    {
        if self.v >= 2 {
            IntScalar { v: 1 }
        } else if self.v <= -2 {
            IntScalar { v: -1 }
        } else {
            IntScalar { v: 0 }
        }
    }
}

} // verus!
