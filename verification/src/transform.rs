//! 2x2 linear maps over the coordinate representations, and rotation.

use crate::points::{CartesianPoint, Coordinates, PairPoint, PolarPoint};
use crate::scalar::Scalar;
use vstd::prelude::*;

verus! {

/// A 2x2 matrix of scalars; `mRC` is the entry in row `R`, column `C`.
#[derive(Clone, Copy, Debug)]
pub struct Matrix<S> {
    pub m00: S,
    pub m01: S,
    pub m10: S,
    pub m11: S,
}

/// The Cartesian point a 2x2 matrix maps a Cartesian point to:
/// `x' = m00 * x + m01 * y`, `y' = m10 * x + m11 * y`.
pub open spec fn spec_apply_matrix<S: Scalar>(m: Matrix<S>, c: CartesianPoint<S>) -> CartesianPoint<
    S,
> {
    CartesianPoint {
        x: m.m00.spec_times(c.x).spec_plus(m.m01.spec_times(c.y)),
        y: m.m10.spec_times(c.x).spec_plus(m.m11.spec_times(c.y)),
    }
}

/// The general transform path every representation can take: convert to
/// Cartesian, apply the matrix there, convert back.
pub open spec fn spec_transform_via_cartesian<S: Scalar, P: Coordinates<S>>(
    p: P,
    m: Matrix<S>,
) -> P {
    P::spec_from_cartesian(spec_apply_matrix(m, p.spec_to_cartesian()))
}

/// The standard rotation matrix for the angle `theta`:
/// `[[cos theta, -sin theta], [sin theta, cos theta]]`.
pub open spec fn spec_rotation_matrix<S: Scalar>(theta: S) -> Matrix<S> {
    Matrix {
        m00: theta.spec_cos(),
        m01: theta.spec_sin().spec_negate(),
        m10: theta.spec_sin(),
        m11: theta.spec_cos(),
    }
}

/// Applies the matrix to a point of any representation by the general
/// path: to Cartesian, `x' = m00 * x + m01 * y`, `y' = m10 * x + m11 * y`,
/// and back.  Representations without a shortcut of their own delegate
/// their `transform` here.
pub fn transform_via_cartesian<S: Scalar, P: Coordinates<S>>(p: P, matrix: &Matrix<S>) -> (t: P)
    ensures
        t == spec_transform_via_cartesian(p, *matrix),
{
    let cart = p.to_cartesian();
    let x = cart.x;
    let y = cart.y;
    let new_cart = CartesianPoint {
        x: matrix.m00.times(x).plus(matrix.m01.times(y)),
        y: matrix.m10.times(x).plus(matrix.m11.times(y)),
    };
    P::from_cartesian(new_cart)
}

/// Builds the standard rotation matrix for `theta`.
pub fn rotation_matrix<S: Scalar>(theta: S) -> (m: Matrix<S>)
    ensures
        m == spec_rotation_matrix(theta),
{
    Matrix { m00: theta.cos(), m01: theta.sin().negate(), m10: theta.sin(), m11: theta.cos() }
}

/// The linear-transform capability, built on [`Coordinates`]: apply a 2x2
/// matrix, and rotate by an angle.
///
/// As with the conversions, each implementation pins both operations to
/// specification functions of its own.  The general definitions are
/// [`spec_transform_via_cartesian`] for `transform` and `transform` with
/// [`spec_rotation_matrix`] for `rotate`; a representation may instead
/// compute the same point directly ([`CartesianPoint`]'s transform) or
/// override the definition with an exact shortcut ([`PolarPoint`]'s
/// rotate, which adds the angle without the round trip through Cartesian).
pub trait LinearTransform<S: Scalar>: Coordinates<S> {
    /// The point that `transform` returns.
    spec fn spec_transform(self, matrix: Matrix<S>) -> Self;

    /// The point that `rotate` returns.
    spec fn spec_rotate(self, theta: S) -> Self;

    /// Applies the 2x2 matrix to the point, returning a point of the same
    /// representation.
    fn transform(self, matrix: &Matrix<S>) -> (t: Self)
        ensures
            t == self.spec_transform(*matrix),
    ;

    /// Rotates the point by `theta`, returning a point of the same
    /// representation.
    fn rotate(self, theta: S) -> (t: Self)
        ensures
            t == self.spec_rotate(theta),
    ;
}

impl<S: Scalar> LinearTransform<S> for CartesianPoint<S> {
    /// The same point as the general path: since the Cartesian conversions
    /// are the identity, it is the matrix applied directly.
    open spec fn spec_transform(self, matrix: Matrix<S>) -> Self {
        spec_apply_matrix(matrix, self)
    }

    /// Rotation is the transform by the rotation matrix.
    open spec fn spec_rotate(self, theta: S) -> Self {
        self.spec_transform(spec_rotation_matrix(theta))
    }

    /// The specialization: operates on `x` and `y` directly, skipping the
    /// two identity conversions of the general path.
    fn transform(self, matrix: &Matrix<S>) -> (t: Self)
        ensures
            t == spec_apply_matrix(*matrix, self),
    {
        let x = self.x;
        let y = self.y;
        CartesianPoint {
            x: matrix.m00.times(x).plus(matrix.m01.times(y)),
            y: matrix.m10.times(x).plus(matrix.m11.times(y)),
        }
    }

    fn rotate(self, theta: S) -> (t: Self)
        ensures
            t == self.spec_transform(spec_rotation_matrix(theta)),
    {
        let m = rotation_matrix(theta);
        self.transform(&m)
    }
}

impl<S: Scalar> LinearTransform<S> for PolarPoint<S> {
    /// The general path: through Cartesian and back.
    open spec fn spec_transform(self, matrix: Matrix<S>) -> Self {
        spec_transform_via_cartesian(self, matrix)
    }

    /// The override: the radius is kept and `theta` is added to the stored
    /// angle.  No round trip through Cartesian, so nothing is lost to the
    /// single-argument arctangent of the reverse conversion.
    open spec fn spec_rotate(self, theta: S) -> Self {
        PolarPoint { r: self.r, theta: self.theta.spec_plus(theta) }
    }

    fn transform(self, matrix: &Matrix<S>) -> (t: Self)
        ensures
            t == spec_transform_via_cartesian(self, *matrix),
    {
        transform_via_cartesian(self, matrix)
    }

    fn rotate(self, theta: S) -> (t: Self)
        ensures
            t == (PolarPoint { r: self.r, theta: self.theta.spec_plus(theta) }),
    {
        PolarPoint { r: self.r, theta: self.theta.plus(theta) }
    }
}

impl<S: Scalar> LinearTransform<S> for PairPoint<S> {
    /// The general path: through Cartesian and back.
    open spec fn spec_transform(self, matrix: Matrix<S>) -> Self {
        spec_transform_via_cartesian(self, matrix)
    }

    /// The general definition: the transform by the rotation matrix.
    open spec fn spec_rotate(self, theta: S) -> Self {
        self.spec_transform(spec_rotation_matrix(theta))
    }

    fn transform(self, matrix: &Matrix<S>) -> (t: Self)
        ensures
            t == spec_transform_via_cartesian(self, *matrix),
    {
        transform_via_cartesian(self, matrix)
    }

    fn rotate(self, theta: S) -> (t: Self)
        ensures
            t == self.spec_transform(spec_rotation_matrix(theta)),
    {
        let m = rotation_matrix(theta);
        self.transform(&m)
    }
}

} // verus!
