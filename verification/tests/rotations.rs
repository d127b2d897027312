// Transform and rotation behaviour with a floating-point scalar.

use coords2d::points::{CartesianPoint, Coordinates, PairPoint, PolarPoint};
use coords2d::scalar::Scalar;
use coords2d::transform::{rotation_matrix, LinearTransform, Matrix};

#[derive(Clone, Copy, Debug)]
struct F64Scalar(f64);

impl Scalar for F64Scalar {
    fn plus(self, other: Self) -> Self {
        F64Scalar(self.0 + other.0)
    }
    fn times(self, other: Self) -> Self {
        F64Scalar(self.0 * other.0)
    }
    fn negate(self) -> Self {
        F64Scalar(-self.0)
    }
    fn divide(self, other: Self) -> Self {
        F64Scalar(self.0 / other.0)
    }
    fn sqrt(self) -> Self {
        F64Scalar(self.0.sqrt())
    }
    fn cos(self) -> Self {
        F64Scalar(self.0.cos())
    }
    fn sin(self) -> Self {
        F64Scalar(self.0.sin())
    }
    fn atan(self) -> Self {
        F64Scalar(self.0.atan())
    }
}

fn close(a: f64, b: f64, tol: f64) -> bool {
    (a - b).abs() <= tol
}

#[test]
fn rotating_the_unit_x_vector_by_a_half_turn() {
    let p = CartesianPoint { x: F64Scalar(1.0), y: F64Scalar(0.0) };
    let r = p.rotate(F64Scalar(std::f64::consts::PI));
    assert!(close(r.x.0, -1.0, 1e-15));
    // the y component is a rounding away from zero, not exactly zero:
    // the sine of the floating-point half turn is not exactly 0
    assert!(r.y.0 != 0.0);
    assert!(r.y.0.abs() < 1e-15);
}

#[test]
fn inverse_rotations_cancel_within_tolerance() {
    let p = CartesianPoint { x: F64Scalar(0.3), y: F64Scalar(-0.7) };
    let theta = 1.1;
    let back = p.rotate(F64Scalar(theta)).rotate(F64Scalar(-theta));
    assert!(close(back.x.0, 0.3, 1e-12));
    assert!(close(back.y.0, -0.7, 1e-12));
}

#[test]
fn cartesian_transform_applies_the_matrix() {
    let m = Matrix {
        m00: F64Scalar(1.0),
        m01: F64Scalar(2.0),
        m10: F64Scalar(3.0),
        m11: F64Scalar(4.0),
    };
    let t = CartesianPoint { x: F64Scalar(10.0), y: F64Scalar(100.0) }.transform(&m);
    assert_eq!(t.x.0, 210.0);
    assert_eq!(t.y.0, 430.0);
}

#[test]
fn pair_transform_round_trips_through_cartesian() {
    let m = Matrix {
        m00: F64Scalar(0.0),
        m01: F64Scalar(-1.0),
        m10: F64Scalar(1.0),
        m11: F64Scalar(0.0),
    };
    let t = PairPoint(F64Scalar(2.0), F64Scalar(5.0)).transform(&m);
    assert_eq!(t.0 .0, -5.0);
    assert_eq!(t.1 .0, 2.0);
}

#[test]
fn polar_rotate_adds_the_angle_exactly() {
    let p = PolarPoint { r: F64Scalar(2.0), theta: F64Scalar(0.25) };
    let r = p.rotate(F64Scalar(0.5));
    assert_eq!(r.r.0, 2.0);
    assert_eq!(r.theta.0, 0.75);
}

#[test]
fn polar_rotate_agrees_with_the_matrix_path_in_the_right_half_plane() {
    // the override adds the angle; the generic path goes through
    // Cartesian and back; where the arctangent keeps the quadrant the two
    // agree up to rounding
    let p = PolarPoint { r: F64Scalar(2.0), theta: F64Scalar(0.3) };
    let direct = p.rotate(F64Scalar(0.4));
    let m = rotation_matrix(F64Scalar(0.4));
    let generic = p.transform(&m);
    assert!(close(direct.r.0, generic.r.0, 1e-12));
    assert!(close(direct.theta.0, generic.theta.0, 1e-12));
}

#[test]
fn polar_rotate_departs_from_the_matrix_path_behind_the_y_axis() {
    // the documented discrepancy: once the rotated point lies behind the
    // y axis, the generic path's arctangent reports the reflected angle
    let p = PolarPoint { r: F64Scalar(1.0), theta: F64Scalar(1.0) };
    let direct = p.rotate(F64Scalar(1.5));
    let m = rotation_matrix(F64Scalar(1.5));
    let generic = p.transform(&m);
    assert!(close(direct.theta.0, 2.5, 1e-12));
    assert!(close(generic.theta.0, 2.5 - std::f64::consts::PI, 1e-12));
}
