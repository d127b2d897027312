// Conversion behaviour, exercised with a floating-point scalar: the
// library is generic over the scalar, and these tests instantiate it with
// a wrapper around f64, as a user of the library would.

use coords2d::points::{CartesianPoint, Coordinates, PairPoint, PolarPoint};
use coords2d::scalar::Scalar;

#[derive(Clone, Copy, Debug)]
struct F64Scalar(f64);

impl Scalar for F64Scalar {
    fn plus(self, other: Self) -> Self {
        F64Scalar(self.0 + other.0)
    }
    fn times(self, other: Self) -> Self {
        F64Scalar(self.0 * other.0)
    }
    fn negate(self) -> Self {
        F64Scalar(-self.0)
    }
    fn divide(self, other: Self) -> Self {
        F64Scalar(self.0 / other.0)
    }
    fn sqrt(self) -> Self {
        F64Scalar(self.0.sqrt())
    }
    fn cos(self) -> Self {
        F64Scalar(self.0.cos())
    }
    fn sin(self) -> Self {
        F64Scalar(self.0.sin())
    }
    fn atan(self) -> Self {
        F64Scalar(self.0.atan())
    }
}

fn close(a: f64, b: f64, tol: f64) -> bool {
    (a - b).abs() <= tol
}

#[test]
fn pair_to_cartesian_is_exact() {
    let c = PairPoint(F64Scalar(3.25), F64Scalar(-7.5)).to_cartesian();
    assert_eq!(c.x.0, 3.25);
    assert_eq!(c.y.0, -7.5);
}

#[test]
fn pair_to_cartesian_is_exact_with_zero_x() {
    // the relabeling is exact even where the polar conversion would not be
    let c = PairPoint(F64Scalar(0.0), F64Scalar(2.5)).to_cartesian();
    assert_eq!(c.x.0, 0.0);
    assert_eq!(c.y.0, 2.5);
}

#[test]
fn pair_from_cartesian_is_exact() {
    let p = PairPoint::from_cartesian(CartesianPoint { x: F64Scalar(1.5), y: F64Scalar(2.5) });
    assert_eq!(p.0 .0, 1.5);
    assert_eq!(p.1 .0, 2.5);
}

#[test]
fn cartesian_to_cartesian_is_identity() {
    let c = CartesianPoint { x: F64Scalar(0.1), y: F64Scalar(-0.2) }.to_cartesian();
    assert_eq!(c.x.0, 0.1);
    assert_eq!(c.y.0, -0.2);
    let d = CartesianPoint::from_cartesian(c);
    assert_eq!(d.x.0, 0.1);
    assert_eq!(d.y.0, -0.2);
}

#[test]
fn unit_diagonal_to_polar() {
    // (1, 1) in Cartesian is the polar point (sqrt(2), pi/4)
    let c = PairPoint(F64Scalar(1.0), F64Scalar(1.0)).to_cartesian();
    assert_eq!(c.x.0, 1.0);
    assert_eq!(c.y.0, 1.0);
    let p = PolarPoint::from_cartesian(c);
    assert!(close(p.r.0, 1.4142135623730951, 1e-15));
    assert!(close(p.theta.0, 0.7853981633974483, 1e-15));
}

#[test]
fn polar_round_trip_in_right_half_plane() {
    // with the angle between a quarter turn either way, the
    // single-argument arctangent is faithful and the round trip through
    // Cartesian comes back to the point, up to rounding
    let p = PolarPoint { r: F64Scalar(2.0), theta: F64Scalar(0.5) };
    let back = PolarPoint::from_cartesian(p.to_cartesian());
    assert!(close(back.r.0, 2.0, 1e-12));
    assert!(close(back.theta.0, 0.5, 1e-12));

    let q = PolarPoint { r: F64Scalar(3.0), theta: F64Scalar(-1.2) };
    let back = PolarPoint::from_cartesian(q.to_cartesian());
    assert!(close(back.r.0, 3.0, 1e-12));
    assert!(close(back.theta.0, -1.2, 1e-12));
}

#[test]
fn polar_round_trip_loses_the_left_half_plane() {
    // the documented gap: behind the y axis the single-argument
    // arctangent names the reflected point, not the original one
    let p = PolarPoint { r: F64Scalar(1.0), theta: F64Scalar(3.0) };
    let back = PolarPoint::from_cartesian(p.to_cartesian());
    assert!(close(back.theta.0, 3.0 - std::f64::consts::PI, 1e-12));
}

#[test]
fn pair_prints_its_elements() {
    // what the generic printer writes for a pair: its Cartesian form,
    // which relabels the elements exactly
    let c = PairPoint(F64Scalar(3.2), F64Scalar(3.3)).to_cartesian();
    let line = format!("x = {}, y = {}", c.x.0, c.y.0);
    assert_eq!(line, "x = 3.2, y = 3.3");
}
