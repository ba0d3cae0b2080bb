use mbot::circle_points_vec;
use mbot::drive_to_point;
use mbot::fixmath::HALF_PI_FIXED;
use mbot::fixmath::PI_FIXED;
use mbot::fixmath::UNIT;
use mbot::nav::atan2_fp;
use mbot::x_points;

#[test]
fn test_atan2_anchors() {
    // Exact on the axes: 0, pi/2, pi, -pi/2.
    assert_eq!(atan2_fp(0, 100), 0);
    assert_eq!(atan2_fp(100, 0), HALF_PI_FIXED);
    assert_eq!(atan2_fp(0, -100), PI_FIXED);
    assert_eq!(atan2_fp(-100, 0), -HALF_PI_FIXED);
}

#[test]
fn test_atan2_diagonal() {
    // The polynomial is exact at a ratio of one: pi/4 on the diagonal.
    assert_eq!(atan2_fp(100, 100), PI_FIXED / 4);
    assert_eq!(atan2_fp(-100, 100), -PI_FIXED / 4);
}

#[test]
fn test_drive_to_point_stops_at_target() {
    // Inside the one-centimetre stop radius nothing moves.
    let (l, r) = drive_to_point((0, 0), 0, (UNIT / 2, 0), 50 * UNIT);
    assert_eq!((l, r), (0, 0));
}

#[test]
fn test_drive_to_point_straight_ahead() {
    // A target dead ahead with a matching heading: no turn, full speed.
    let (l, r) = drive_to_point((0, 0), 0, (10 * UNIT, 0), 50 * UNIT);
    assert_eq!((l, r), (50, 50));
}

#[test]
fn test_drive_to_point_turns_left() {
    // A target straight to the left: bearing error pi/2, so the right
    // wheel leads and the forward speed is halved.
    let (l, r) = drive_to_point((0, 0), 0, (0, 10 * UNIT), 50 * UNIT);
    assert!(r > l);
    assert!(l < 0 && r > 0);
}

#[test]
fn test_drive_to_point_facing_away() {
    // Facing exactly away from the target the forward term vanishes:
    // the wheels only counter-rotate to turn around.
    let (l, r) = drive_to_point((0, 0), PI_FIXED, (10 * UNIT, 0), 50 * UNIT);
    assert_eq!(l + r, 0);
    assert!(l != 0);
}

#[test]
fn test_circle_points() {
    let pts = circle_points_vec((0, 0), 10 * UNIT, 8);
    assert_eq!(pts.len(), 9);
    // The first point sits on the positive x axis; the path closes.
    assert_eq!(pts[0], (10 * UNIT, 0));
    assert_eq!(pts[8], pts[0]);
    // Every point stays within the circumscribed square.
    for p in &pts {
        assert!(p.0.abs() <= 10 * UNIT && p.1.abs() <= 10 * UNIT);
    }
}

#[test]
fn test_x_points() {
    let pts = x_points((10 * UNIT, 10 * UNIT), 4 * UNIT);
    assert_eq!(pts[0], (8 * UNIT, 8 * UNIT));
    assert_eq!(pts[1], (12 * UNIT, 12 * UNIT));
    assert_eq!(pts[2], (10 * UNIT, 10 * UNIT));
    assert_eq!(pts[3], (12 * UNIT, 8 * UNIT));
    assert_eq!(pts[4], (8 * UNIT, 12 * UNIT));
}
