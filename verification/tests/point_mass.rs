use carambolage::matrix::Mat4;
use carambolage::point_mass::ConstructionError;
use carambolage::point_mass::PointMassCar;
use carambolage::vector::Vec2;

#[test]
fn straight_line_scenario() {
    // Position (0,0), velocity (1,0), no force, mass 1, one second.
    let car = PointMassCar::new(Vec2::new(0, 0), Vec2::new(1000, 0), Vec2::new(0, 0), 1000);
    let mut car = car.unwrap();
    car.advance(1000);
    assert_eq!(car.position, Vec2::new(1000, 0));
    assert_eq!(car.velocity, Vec2::new(1000, 0));
}

#[test]
fn constant_force_scenario() {
    // Position (0,0), velocity (0,0), force (1,0), mass 1, two seconds:
    // position (2,0) and velocity (2,0).
    let car = PointMassCar::new(Vec2::new(0, 0), Vec2::new(0, 0), Vec2::new(1000, 0), 1000);
    let mut car = car.unwrap();
    car.advance(2000);
    assert_eq!(car.position, Vec2::new(2000, 0));
    assert_eq!(car.velocity, Vec2::new(2000, 0));
}

#[test]
fn integration_order_is_semi_implicit() {
    // One second under force (1,0) from rest: the position gains only the
    // half-acceleration term, not the full post-update velocity.
    let car = PointMassCar::new(Vec2::new(0, 0), Vec2::new(0, 0), Vec2::new(1000, 0), 1000);
    let mut car = car.unwrap();
    car.advance(1000);
    assert_eq!(car.position, Vec2::new(500, 0));
    assert_eq!(car.velocity, Vec2::new(1000, 0));
}

#[test]
fn non_positive_mass_is_rejected() {
    let zero = PointMassCar::new(Vec2::zero(), Vec2::zero(), Vec2::zero(), 0);
    assert_eq!(zero.unwrap_err(), ConstructionError::NonPositiveMass);
    let negative = PointMassCar::new(Vec2::zero(), Vec2::zero(), Vec2::zero(), -5);
    assert_eq!(negative.unwrap_err(), ConstructionError::NonPositiveMass);
    let tiny = PointMassCar::new(Vec2::zero(), Vec2::zero(), Vec2::zero(), 1);
    assert!(tiny.is_ok());
    assert_eq!(tiny.unwrap().mass, 1);
}

#[test]
fn negative_step_is_accepted() {
    let car = PointMassCar::new(Vec2::new(0, 0), Vec2::new(1000, 0), Vec2::new(0, -500), 2000);
    let mut car = car.unwrap();
    car.advance(-1000);
    assert_eq!(car.position, Vec2::new(-1000, -125));
    assert_eq!(car.velocity, Vec2::new(1000, 250));
}

#[test]
fn zero_step_is_a_fixed_point() {
    let car = PointMassCar::new(Vec2::new(7, 8), Vec2::new(9, 10), Vec2::new(11, 12), 1000);
    let mut car = car.unwrap();
    car.advance(0);
    assert_eq!(car.position, Vec2::new(7, 8));
    assert_eq!(car.velocity, Vec2::new(9, 10));
}

#[test]
fn rotation_field_is_never_updated() {
    let car = PointMassCar::new(Vec2::zero(), Vec2::new(1000, 0), Vec2::new(1000, 0), 1000);
    let mut car = car.unwrap();
    car.advance(1000);
    car.advance(1000);
    assert_eq!(car.rotation, 0);
}

#[test]
fn render_is_a_no_op() {
    let car = PointMassCar::new(Vec2::new(1, 2), Vec2::new(3, 4), Vec2::new(5, 6), 1000);
    let car = car.unwrap();
    let camera = Mat4::new(
        1000, 0, 0, 0, //
        0, 1000, 0, 0, //
        0, 0, 1000, 0, //
        0, 0, 0, 1000,
    );
    car.render(&camera, &camera);
    assert_eq!(car.position, Vec2::new(1, 2));
    assert_eq!(car.velocity, Vec2::new(3, 4));
    assert_eq!(car.force, Vec2::new(5, 6));
}
