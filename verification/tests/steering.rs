use carambolage::matrix::Mat4;
use carambolage::steering::Car;
use carambolage::steering::Controller;
use carambolage::vector::Vec3;

fn identity() -> Mat4 {
    Mat4::new(
        1000, 0, 0, 0, //
        0, 1000, 0, 0, //
        0, 0, 1000, 0, //
        0, 0, 0, 1000,
    )
}

#[test]
fn coast_leaves_pose_unchanged() {
    let mut car = Car::new(Vec3::new(5, 6, 7), 2000);
    car.orientation.z = 700;
    let before_position = car.center_of_mass;
    let before_orientation = car.orientation;
    car.run(1000, None);
    assert_eq!(car.center_of_mass, before_position);
    assert_eq!(car.orientation, before_orientation);
    assert_eq!(car.mass, 2000);
}

#[test]
fn coast_holds_on_any_representable_pose() {
    // Coasting computes nothing, so it is frozen state even far outside
    // the headroom a controlled tick needs.
    let mut car = Car::new(Vec3::new(i64::MAX - 5, i64::MIN + 5, i64::MAX), 2000);
    car.orientation.z = i64::MAX;
    car.run(i64::MAX, None);
    assert_eq!(car.center_of_mass, Vec3::new(i64::MAX - 5, i64::MIN + 5, i64::MAX));
    assert_eq!(car.orientation.z, i64::MAX);
    assert_eq!(car.mass, 2000);
    assert_eq!(car.dist_front_axle, 1000);
    assert_eq!(car.dist_rear_axle, 1000);
}

#[test]
fn zero_throttle_suppresses_steering() {
    let mut car = Car::new(Vec3::new(0, 0, 0), 2000);
    car.orientation.z = 700;
    let ct = Controller::new(1000, 0);
    car.run(1000, Some(ct));
    assert_eq!(car.orientation.z, 700);
    assert_eq!(car.center_of_mass, Vec3::new(0, 0, 0));
}

#[test]
fn full_throttle_drives_forward() {
    let mut car = Car::new(Vec3::new(0, 0, 0), 2000);
    let ct = Controller::new(0, 1000);
    car.run(1000, Some(ct));
    assert_eq!(car.orientation.z, 0);
    // 10 m/s at full throttle for one second: 10 metres forward.
    assert_eq!(car.center_of_mass, Vec3::new(0, 10_000, 0));
}

#[test]
fn full_steer_full_throttle_turns() {
    let mut car = Car::new(Vec3::new(0, 0, 0), 2000);
    let ct = Controller::new(1000, 1000);
    car.run(1000, Some(ct));
    // Yaw turns by the full 3.5 rad gain; the car then advances along the
    // forward direction of the new orientation.
    assert_eq!(car.orientation.z, -3500);
    assert_eq!(car.center_of_mass, Vec3::new(-3520, -9360, 0));
}

#[test]
fn braking_reverses() {
    let mut car = Car::new(Vec3::new(0, 0, 0), 2000);
    let ct = Controller::new(0, -1000);
    car.run(1000, Some(ct));
    assert_eq!(car.orientation.z, 0);
    assert_eq!(car.center_of_mass, Vec3::new(0, -10_000, 0));
}

#[test]
fn mass_fallback_on_construction() {
    let small = Car::new(Vec3::new(0, 0, 0), 500);
    assert_eq!(small.mass, 1000);
    let boundary = Car::new(Vec3::new(0, 0, 0), 1000);
    assert_eq!(boundary.mass, 1000);
    let heavy = Car::new(Vec3::new(0, 0, 0), 2000);
    assert_eq!(heavy.mass, 2000);
    let negative = Car::new(Vec3::new(0, 0, 0), -300);
    assert_eq!(negative.mass, 1000);
}

#[test]
fn default_car_is_at_rest() {
    let car: Car = Default::default();
    assert_eq!(car.center_of_mass, Vec3::new(0, 0, 0));
    assert_eq!(car.orientation, Vec3::new(0, 0, 0));
    assert_eq!(car.mass, 1000);
    assert_eq!(car.dist_front_axle, 1000);
    assert_eq!(car.dist_rear_axle, 1000);
}

#[test]
fn controller_hands_axes_back() {
    let ct = Controller::new(-250, 750);
    assert_eq!(ct.get_x_axis(), -250);
    assert_eq!(ct.get_y_axis(), 750);
}

#[test]
fn draw_transform_with_identity_cameras_is_the_model() {
    let mut car = Car::new(Vec3::new(2000, 3000, 4000), 2000);
    car.orientation.z = 0;
    let view = identity();
    let projection = identity();
    let mvp = car.draw_transform(&view, &projection);
    let expected = Mat4::new(
        1000, 0, 0, 2000, //
        0, 1000, 0, 3000, //
        0, 0, 1000, 4000, //
        0, 0, 0, 1000,
    );
    assert_eq!(mvp, expected);
}

#[test]
fn draw_transform_carries_the_yaw() {
    let mut car = Car::new(Vec3::new(0, 0, 0), 2000);
    // A quarter turn: cosine -1, sine 1000 on the fixed-point grid.
    car.orientation.z = 1571;
    let mvp = car.draw_transform(&identity(), &identity());
    let expected = Mat4::new(
        -1, -1000, 0, 0, //
        1000, -1, 0, 0, //
        0, 0, 1000, 0, //
        0, 0, 0, 1000,
    );
    assert_eq!(mvp, expected);
}
