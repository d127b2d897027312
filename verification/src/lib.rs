//! A small verified library for 2D coordinate representations and linear
//! transforms.
//!
//! Three interchangeable representations of a point in the plane are
//! provided: [`points::CartesianPoint`] (the canonical one),
//! [`points::PolarPoint`] (radius and angle), and [`points::PairPoint`]
//! (a plain ordered pair read as `(x, y)`).  Every representation
//! implements the [`points::Coordinates`] capability (conversion to and
//! from the canonical Cartesian form), and on top of that the
//! [`transform::LinearTransform`] capability applies a 2x2 linear map or a
//! rotation.
//!
//! The library is generic over the scalar type.  A scalar supplies the
//! arithmetic and trigonometric operations through the [`scalar::Scalar`]
//! trait; each operation is pinned to a per-implementation specification
//! function, so every conversion and transform here carries an exact
//! contract saying which scalar operations it applies to which components.
//! Callers instantiate the scalar with their numeric type (typically a
//! wrapper around a hardware floating-point type, whose operations no
//! verifier checks); the structure of the computation is what is verified
//! here, for every conforming scalar.

pub mod int_scalar;
pub mod laws;
pub mod points;
pub mod scalar;
pub mod transform;
