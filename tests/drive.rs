use swerve_drive::corner::Corner;
use swerve_drive::drive::{Position2D, SwerveDriver, SwerveUnit};

const ALL: [Corner; 4] = [Corner::FrontLeft, Corner::FrontRight, Corner::RearLeft, Corner::RearRight];

fn rectangle() -> SwerveDriver<f32> {
    // front-back 1.0, left-right 0.6: half extents 0.5 and 0.3
    SwerveDriver::with_layout(-0.3, 0.3, 0.5, -0.5, 0.0)
}

#[test]
fn layout_places_each_corner() {
    let d = rectangle();
    assert_eq!(d.position(Corner::FrontLeft), Position2D::new(-0.3, 0.5));
    assert_eq!(d.position(Corner::FrontRight), Position2D::new(0.3, 0.5));
    assert_eq!(d.position(Corner::RearLeft), Position2D::new(-0.3, -0.5));
    assert_eq!(d.position(Corner::RearRight), Position2D::new(0.3, -0.5));
}

#[test]
fn layout_opposite_corners_reflect_through_center() {
    let d = rectangle();
    for c in ALL {
        let p = d.position(c);
        let q = d.position(c.opposite());
        assert_eq!((q.x, q.y), (-p.x, -p.y));
    }
}

#[test]
fn outputs_start_idle() {
    let d = rectangle();
    assert_eq!(d.get_front_left_target(), (0.0, 0.0));
    assert_eq!(d.get_front_right_target(), (0.0, 0.0));
    assert_eq!(d.get_rear_left_target(), (0.0, 0.0));
    assert_eq!(d.get_rear_right_target(), (0.0, 0.0));
}

#[test]
fn uniform_command_reaches_every_module() {
    let mut d = rectangle();
    d.set_uniform(1.0, 0.0);
    for c in ALL {
        assert_eq!(d.target(c), (1.0, 0.0));
    }
    d.set_uniform(1.0, std::f32::consts::FRAC_PI_2);
    assert_eq!(d.get_front_left_target(), (1.0, std::f32::consts::FRAC_PI_2));
    assert_eq!(d.get_rear_right_target(), (1.0, std::f32::consts::FRAC_PI_2));
    assert_eq!(d.position(Corner::FrontLeft), Position2D::new(-0.3, 0.5));
}

#[test]
fn set_target_touches_one_module() {
    let mut d = SwerveDriver::with_layout(-3i64, 3, 5, -5, 0);
    d.set_target(Corner::RearLeft, 9, -4);
    assert_eq!(d.get_rear_left_target(), (9, -4));
    assert_eq!(d.get_front_left_target(), (0, 0));
    assert_eq!(d.get_front_right_target(), (0, 0));
    assert_eq!(d.get_rear_right_target(), (0, 0));
    assert_eq!(d.position(Corner::RearLeft), Position2D::new(-3, -5));
}

#[test]
fn set_each_applies_rule_to_own_position() {
    let mut d = SwerveDriver::with_layout(-3i64, 3, 5, -5, 0);
    d.set_each(&|p: Position2D<i64>| (p.x * p.x + p.y * p.y, p.x - p.y));
    assert_eq!(d.get_front_left_target(), (34, -8));
    assert_eq!(d.get_front_right_target(), (34, -2));
    assert_eq!(d.get_rear_left_target(), (34, 2));
    assert_eq!(d.get_rear_right_target(), (34, 8));
    assert_eq!(d.position(Corner::FrontRight), Position2D::new(3, 5));
}

#[test]
fn pure_spin_opposite_corners_equal_speed() {
    // a quarter turn of each module's radius vector: the tangential vector
    let mut d = SwerveDriver::with_layout(-3i64, 3, 5, -5, 0);
    d.set_each(&|p: Position2D<i64>| {
        let t = Position2D::new(p.y, -p.x);
        (t.x * t.x + t.y * t.y, t.x * p.x + t.y * p.y)
    });
    for c in ALL {
        let (s, dot) = d.target(c);
        assert_eq!(s, d.target(c.opposite()).0);
        assert_eq!(s, 34);
        assert_eq!(dot, 0);
    }
}

#[test]
fn unit_new_and_accessors() {
    let u = SwerveUnit::new(1.5f32, -2.0, 0.0);
    assert_eq!(u.position, Position2D::new(1.5, -2.0));
    assert_eq!((u.velocity, u.steer_theta), (0.0, 0.0));
    let d = SwerveDriver::with_layout(-1i32, 1, 2, -2, 7);
    assert_eq!(d.unit(Corner::RearRight).position, Position2D::new(1, -2));
    assert_eq!(d.unit(Corner::RearRight).velocity, 7);
}
