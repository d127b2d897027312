//! The representation-level laws of the library, stated and proved once
//! for every scalar.
//!
//! Most hold for every scalar, because they do not depend on what the
//! scalar's operations mean: the Cartesian conversions are the identity,
//! the pair conversions are an exact and invertible relabeling, and the
//! transform and rotation shortcuts compute the same points as the general
//! path through the conversions.  Properties that do depend on the
//! scalar's arithmetic (that inverse rotations cancel, that the polar
//! angle survives a round trip through Cartesian) hold of real numbers,
//! and of a rounding scalar only up to its rounding; here they are proved
//! outright for the exact integer scalar, whose rotations are exact.

use crate::int_scalar::{floor_sqrt, is_floor_sqrt, lemma_floor_sqrt_unique, lemma_times_unit, quadrant_of, IntScalar};
use crate::points::{CartesianPoint, Coordinates, PairPoint, PolarPoint};
use crate::scalar::Scalar;
use crate::transform::{spec_apply_matrix, spec_rotation_matrix, spec_transform_via_cartesian, LinearTransform, Matrix};
use vstd::prelude::*;

verus! {

/// Converting a Cartesian point to Cartesian is the identity, and so is
/// constructing a Cartesian point from one.
pub proof fn lemma_cartesian_conversion_identity<S: Scalar>(c: CartesianPoint<S>)
    ensures
        c.spec_to_cartesian() == c,
        CartesianPoint::<S>::spec_from_cartesian(c) == c,
{
}

/// A pair converts to exactly the Cartesian point with its two elements:
/// the conversion is a relabeling, for every pair (whatever its scalar
/// values, a zero first element included).
pub proof fn lemma_pair_to_cartesian_exact<S: Scalar>(p: PairPoint<S>)
    ensures
        p.spec_to_cartesian() == (CartesianPoint { x: p.0, y: p.1 }),
{
}

/// The pair and Cartesian conversions invert each other exactly, in both
/// directions: the relabeling loses nothing.
pub proof fn lemma_pair_cartesian_round_trip<S: Scalar>(p: PairPoint<S>, c: CartesianPoint<S>)
    ensures
        PairPoint::<S>::spec_from_cartesian(p.spec_to_cartesian()) == p,
        (PairPoint::<S>::spec_from_cartesian(c)).spec_to_cartesian() == c,
{
}

/// The Cartesian transform shortcut (the matrix applied directly to `x`
/// and `y`) returns exactly the point of the general path: convert to
/// Cartesian, apply the matrix, convert back.  The shortcut skips two
/// identity conversions and nothing else.
pub proof fn lemma_cartesian_transform_matches_general_path<S: Scalar>(
    c: CartesianPoint<S>,
    m: Matrix<S>,
)
    ensures
        c.spec_transform(m) == spec_transform_via_cartesian(c, m),
{
}

/// A pair is transformed exactly as the Cartesian point it relabels:
/// the components of the transformed pair are the components of the
/// transformed Cartesian point.
pub proof fn lemma_pair_transform_agrees_with_cartesian<S: Scalar>(p: PairPoint<S>, m: Matrix<S>)
    ensures
        p.spec_transform(m).0 == (CartesianPoint { x: p.0, y: p.1 }).spec_transform(m).x,
        p.spec_transform(m).1 == (CartesianPoint { x: p.0, y: p.1 }).spec_transform(m).y,
{
}

/// A pair is rotated exactly as the Cartesian point it relabels: both
/// take the general path with the same rotation matrix, and the pair's
/// conversions relabel.
pub proof fn lemma_pair_rotate_agrees_with_cartesian<S: Scalar>(p: PairPoint<S>, theta: S)
    ensures
        p.spec_rotate(theta).0 == (CartesianPoint { x: p.0, y: p.1 }).spec_rotate(theta).x,
        p.spec_rotate(theta).1 == (CartesianPoint { x: p.0, y: p.1 }).spec_rotate(theta).y,
{
}

/// The quadrant of a negated angle, from the quadrant of the angle.
proof fn lemma_neg_quadrant(v: int)
    ensures
        quadrant_of(v) == 0 ==> quadrant_of(-v) == 0,
        quadrant_of(v) != 0 ==> quadrant_of(-v) == 4 - quadrant_of(v),
{
    let q = v % 4;
    vstd::arithmetic::div_mod::lemma_mod_bound(v, 4);
    vstd::arithmetic::div_mod::lemma_fundamental_div_mod(v, 4);
    if q == 0 {
        vstd::arithmetic::div_mod::lemma_fundamental_div_mod_converse(-v, 4, -(v / 4), 0);
    } else {
        vstd::arithmetic::div_mod::lemma_fundamental_div_mod_converse(-v, 4, -(v / 4) - 1, 4 - q);
    }
}

/// Inverse rotations cancel, exactly, on the exact integer scalar: a
/// Cartesian point rotated by any whole number of quarter turns and then
/// by its negation is the point it was.  (On a rounding scalar the same
/// law holds of the real numbers the values approximate, so only up to
/// the scalar's rounding; on this scalar it is outright.)  The three
/// saturating values are left out: a coordinate or angle at the very
/// bottom of the range has no exact negation.
pub proof fn lemma_int_cartesian_rotation_round_trip(c: CartesianPoint<IntScalar>, theta: IntScalar)
    requires
        c.x.v != i64::MIN,
        c.y.v != i64::MIN,
        theta.v != i64::MIN,
    ensures
        c.spec_rotate(theta).spec_rotate(theta.spec_negate()) == c,
{
    let v = theta.v as int;
    let q = quadrant_of(v);
    vstd::arithmetic::div_mod::lemma_mod_bound(v, 4);
    lemma_neg_quadrant(v);
    let t2 = theta.spec_negate();
    assert(t2.v as int == -v);
    let m1 = spec_rotation_matrix::<IntScalar>(theta);
    let m2 = spec_rotation_matrix::<IntScalar>(t2);
    let c1 = c.spec_rotate(theta);
    let c2 = c1.spec_rotate(t2);
    assert(c1 == spec_apply_matrix(m1, c));
    assert(c2 == spec_apply_matrix(m2, c1));
    lemma_times_unit(m1.m00, c.x);
    lemma_times_unit(m1.m01, c.y);
    lemma_times_unit(m1.m10, c.x);
    lemma_times_unit(m1.m11, c.y);
    if q == 0 {
        assert(c1.x.v == c.x.v && c1.y.v == c.y.v);
    } else if q == 1 {
        assert(c1.x.v as int == -(c.y.v as int) && c1.y.v == c.x.v);
    } else if q == 2 {
        assert(c1.x.v as int == -(c.x.v as int) && c1.y.v as int == -(c.y.v as int));
    } else {
        assert(c1.x.v == c.y.v && c1.y.v as int == -(c.x.v as int));
    }
    lemma_times_unit(m2.m00, c1.x);
    lemma_times_unit(m2.m01, c1.y);
    lemma_times_unit(m2.m10, c1.x);
    lemma_times_unit(m2.m11, c1.y);
    assert(c2.x.v == c.x.v && c2.y.v == c.y.v);
    assert(c2.x == c.x && c2.y == c.y);
}

/// The polar round trip through Cartesian is exact on the exact integer
/// scalar, for the points its arctangent is faithful to: a nonnegative
/// radius small enough that its square does not saturate, and an angle
/// within a quarter turn of the reference axis either way — which, in
/// whole quarter turns, is the angle zero.  (On a floating-point scalar
/// the same region gives the round trip back only up to rounding.)
pub proof fn lemma_int_polar_cartesian_round_trip(p: PolarPoint<IntScalar>)
    requires
        0 <= p.r.v <= 3037000499,
        p.theta.v == 0,
    ensures
        PolarPoint::<IntScalar>::spec_from_cartesian(p.spec_to_cartesian()) == p,
{
    let r = p.r;
    let c = p.spec_to_cartesian();
    lemma_times_unit(p.theta.spec_cos(), r);
    lemma_times_unit(p.theta.spec_sin(), r);
    assert(c.x == r && c.y.v == 0);
    lemma_times_unit(c.y, c.y);
    assert(r.v as int * r.v as int <= 3037000499int * 3037000499int) by (nonlinear_arith)
        requires
            0 <= r.v <= 3037000499,
    ;
    assert(c.x.spec_times(c.x).v as int == r.v as int * r.v as int);
    let sq = c.x.spec_times(c.x).spec_plus(c.y.spec_times(c.y));
    assert(sq.v as int == r.v as int * r.v as int);
    assert(is_floor_sqrt(sq.v as int, r.v as int)) by (nonlinear_arith)
        requires
            0 <= r.v,
            sq.v as int == r.v as int * r.v as int,
    ;
    assert(is_floor_sqrt(sq.v as int, floor_sqrt(sq.v as int))) by {
        assert(exists|w: int| is_floor_sqrt(sq.v as int, w));
    }
    lemma_floor_sqrt_unique(sq.v as int, r.v as int, floor_sqrt(sq.v as int));
    assert(sq.spec_sqrt() == r);
    let back = PolarPoint::<IntScalar>::spec_from_cartesian(c);
    assert(back.r == r);
    assert(back.theta.v == 0);
}

/// Inverse rotations cancel exactly on a polar point of the exact
/// integer scalar, whenever the added angle keeps the stored angle away
/// from the saturation bounds: the rotation override adds the angle, so
/// adding it and its negation returns the stored angle.
pub proof fn lemma_int_polar_rotation_round_trip(p: PolarPoint<IntScalar>, theta: IntScalar)
    requires
        theta.v != i64::MIN,
        i64::MIN <= p.theta.v + theta.v <= i64::MAX,
    ensures
        p.spec_rotate(theta).spec_rotate(theta.spec_negate()) == p,
{
}

} // verus!
