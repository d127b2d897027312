//! The three point representations and the conversion capability.

use crate::scalar::Scalar;
use vstd::prelude::*;

verus! {

/// A point described by perpendicular displacements `x` and `y` from the
/// origin.  This is the canonical representation: every conversion between
/// representations routes through it.
#[derive(Clone, Copy, Debug)]
pub struct CartesianPoint<S> {
    pub x: S,
    pub y: S,
}

/// A point described by its distance `r` from the origin and the angle
/// `theta` from the reference axis, in the scalar's own angle measure.
#[derive(Clone, Copy, Debug)]
pub struct PolarPoint<S> {
    pub r: S,
    pub theta: S,
}

/// A plain ordered pair of scalars, read as `(x, y)`.  Structurally the
/// same as [`CartesianPoint`], but a distinct type: it stands for a foreign
/// pair-like type that the conversion capability is extended to.
#[derive(Clone, Copy, Debug)]
pub struct PairPoint<S>(pub S, pub S);

/// The conversion capability every representation implements: convert to
/// and from the canonical Cartesian representation.
///
/// Each implementation pins its two conversions to specification functions
/// of its own (`to_cartesian` returns exactly `spec_to_cartesian`, and
/// `from_cartesian` exactly `spec_from_cartesian`), so callers know, for
/// each representation, precisely which point comes out.
pub trait Coordinates<S: Scalar>: Sized {
    /// The Cartesian point that `to_cartesian` returns.
    spec fn spec_to_cartesian(self) -> CartesianPoint<S>;

    /// The representation's point that `from_cartesian` returns.
    spec fn spec_from_cartesian(cart: CartesianPoint<S>) -> Self;

    /// Consumes the value and returns its Cartesian equivalent.
    fn to_cartesian(self) -> (c: CartesianPoint<S>)
        ensures
            c == self.spec_to_cartesian(),
    ;

    /// Constructs a value of this representation from a Cartesian point.
    fn from_cartesian(cart: CartesianPoint<S>) -> (p: Self)
        ensures
            p == Self::spec_from_cartesian(cart),
    ;
}

impl<S: Scalar> Coordinates<S> for CartesianPoint<S> {
    /// The identity: a Cartesian point is already canonical.
    open spec fn spec_to_cartesian(self) -> CartesianPoint<S> {
        self
    }

    /// The identity.
    open spec fn spec_from_cartesian(cart: CartesianPoint<S>) -> Self {
        cart
    }

    fn to_cartesian(self) -> (c: CartesianPoint<S>)
        ensures
            c == self,
    {
        self
    }

    fn from_cartesian(cart: CartesianPoint<S>) -> (p: Self)
        ensures
            p == cart,
    {
        cart
    }
}

impl<S: Scalar> Coordinates<S> for PolarPoint<S> {
    /// `x = r * cos(theta)`, `y = r * sin(theta)`.
    open spec fn spec_to_cartesian(self) -> CartesianPoint<S> {
        CartesianPoint {
            x: self.r.spec_times(self.theta.spec_cos()),
            y: self.r.spec_times(self.theta.spec_sin()),
        }
    }

    /// `r = sqrt(x * x + y * y)`, `theta = atan(y / x)`.  The angle comes
    /// from the single-argument arctangent, so it identifies a point with
    /// its reflection through the origin: for a point left of the `y` axis
    /// the angle names the reflected point.  That is this representation's
    /// documented conversion, kept as stated rather than silently replaced
    /// by a quadrant-aware one.
    open spec fn spec_from_cartesian(cart: CartesianPoint<S>) -> Self {
        PolarPoint {
            r: cart.x.spec_times(cart.x).spec_plus(cart.y.spec_times(cart.y)).spec_sqrt(),
            theta: cart.y.spec_divide(cart.x).spec_atan(),
        }
    }

    fn to_cartesian(self) -> (c: CartesianPoint<S>)
        ensures
            c == self.spec_to_cartesian(),
    {
        CartesianPoint { x: self.r.times(self.theta.cos()), y: self.r.times(self.theta.sin()) }
    }

    fn from_cartesian(cart: CartesianPoint<S>) -> (p: Self)
        ensures
            p == Self::spec_from_cartesian(cart),
    {
        PolarPoint {
            r: cart.x.times(cart.x).plus(cart.y.times(cart.y)).sqrt(),
            theta: cart.y.divide(cart.x).atan(),
        }
    }
}

impl<S: Scalar> Coordinates<S> for PairPoint<S> {
    /// A pure relabeling: the first element becomes `x`, the second `y`.
    open spec fn spec_to_cartesian(self) -> CartesianPoint<S> {
        CartesianPoint { x: self.0, y: self.1 }
    }

    /// A pure relabeling: `(x, y)`.
    open spec fn spec_from_cartesian(cart: CartesianPoint<S>) -> Self {
        PairPoint(cart.x, cart.y)
    }

    fn to_cartesian(self) -> (c: CartesianPoint<S>)
        ensures
            c == (CartesianPoint { x: self.0, y: self.1 }),
    {
        CartesianPoint { x: self.0, y: self.1 }
    }

    fn from_cartesian(cart: CartesianPoint<S>) -> (p: Self)
        ensures
            p == PairPoint(cart.x, cart.y),
    {
        PairPoint(cart.x, cart.y)
    }
}

} // verus!
