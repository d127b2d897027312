//! The scalar abstraction: the numeric type that coordinates are made of.

use vstd::prelude::*;

verus! {

/// The arithmetic and trigonometric operations that the coordinate
/// representations need from their component type.
///
/// Each executable operation is pinned to a specification function of the
/// same implementation (`plus` returns exactly `spec_plus`, and so on), so
/// verified code built on a scalar can state precisely which operations it
/// performs, without fixing what the operations mean.  An implementation
/// chooses the meaning: it defines the spec functions and proves that its
/// executable operations match them.
///
/// The intended instantiation is a wrapper around a hardware
/// floating-point type, whose arithmetic no verifier reads; such a wrapper
/// lives outside the verified library, and the contracts here then pin the
/// structure of every computation (which operations are applied to which
/// components) rather than the rounding behaviour of the hardware.
///
/// The specification functions carry placeholder default bodies (each
/// returns its receiver) so that an implementation written outside the
/// verifier need only supply the executable operations.  An implementation
/// inside the verifier overrides them with the operations' meaning, as
/// [`crate::int_scalar::IntScalar`] does, and proves its executable
/// operations match.
pub trait Scalar: Sized + Copy {
    /// The value `plus` returns.
    open spec fn spec_plus(self, other: Self) -> Self {
        self
    }

    /// The value `times` returns.
    open spec fn spec_times(self, other: Self) -> Self {
        self
    }

    /// The value `negate` returns.
    open spec fn spec_negate(self) -> Self {
        self
    }

    /// The value `divide` returns.
    open spec fn spec_divide(self, other: Self) -> Self {
        self
    }

    /// The value `sqrt` returns.
    open spec fn spec_sqrt(self) -> Self {
        self
    }

    /// The value `cos` returns.
    open spec fn spec_cos(self) -> Self {
        self
    }

    /// The value `sin` returns.
    open spec fn spec_sin(self) -> Self {
        self
    }

    /// The value `atan` returns.
    open spec fn spec_atan(self) -> Self {
        self
    }

    /// Addition: `self + other`.
    fn plus(self, other: Self) -> (r: Self)
        ensures
            r == self.spec_plus(other),
    ;

    /// Multiplication: `self * other`.
    fn times(self, other: Self) -> (r: Self)
        ensures
            r == self.spec_times(other),
    ;

    /// Additive inverse: `-self`.
    fn negate(self) -> (r: Self)
        ensures
            r == self.spec_negate(),
    ;

    /// Division: `self / other`.  What a scalar returns when `other` is its
    /// zero is the implementation's choice (a floating-point scalar yields
    /// an infinity or a not-a-number value rather than failing).
    fn divide(self, other: Self) -> (r: Self)
        ensures
            r == self.spec_divide(other),
    ;

    /// The square root of `self`.
    fn sqrt(self) -> (r: Self)
        ensures
            r == self.spec_sqrt(),
    ;

    /// The cosine of `self`, read as an angle in the scalar's own measure.
    fn cos(self) -> (r: Self)
        ensures
            r == self.spec_cos(),
    ;

    /// The sine of `self`, read as an angle in the scalar's own measure.
    fn sin(self) -> (r: Self)
        ensures
            r == self.spec_sin(),
    ;

    /// The single-argument arctangent of `self`, as an angle in the
    /// scalar's own measure.  Single-argument: the result of `(y / x).atan()`
    /// cannot distinguish a point from its reflection through the origin.
    fn atan(self) -> (r: Self)
        ensures
            r == self.spec_atan(),
    ;
}

} // verus!
