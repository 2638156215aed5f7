use carambolage::matrix::Mat4;
use carambolage::trig::cos_fixed;
use carambolage::trig::sin_fixed;
use carambolage::vector::Vec3;
use carambolage::vector::Vec4;

#[test]
fn sine_anchors_are_exact() {
    assert_eq!(sin_fixed(0), 0);
    assert_eq!(sin_fixed(1571), 1000);
    assert_eq!(sin_fixed(3141), 0);
    assert_eq!(sin_fixed(-1571), -1000);
    assert_eq!(sin_fixed(4712), -1000);
}

#[test]
fn cosine_anchors_are_exact() {
    assert_eq!(cos_fixed(0), 1000);
    assert_eq!(cos_fixed(3141), -1000);
    assert_eq!(cos_fixed(-1571), 0);
}

#[test]
fn trig_mid_values() {
    assert_eq!(sin_fixed(500), 480);
    assert_eq!(cos_fixed(500), 876);
    // A quarter turn misses zero by one grid step on this approximation.
    assert_eq!(cos_fixed(1571), -1);
}

#[test]
fn trig_is_periodic_and_bounded() {
    assert_eq!(sin_fixed(6283 + 500), sin_fixed(500));
    assert_eq!(sin_fixed(500 - 6283), sin_fixed(500));
    let far = sin_fixed(999_999_999_999_999);
    assert!((-1000..=1000).contains(&far));
    let far_cos = cos_fixed(-999_999_999_999_999);
    assert!((-1000..=1000).contains(&far_cos));
}

#[test]
fn homogeneous_embedding_marks_directions() {
    let v = Vec3::new(1, 2, 3);
    let h = v.to_homogeneous();
    assert_eq!(h, Vec4 { x: 1, y: 2, z: 3, w: 0 });
    assert_eq!(h.from_homogeneous(), Some(v));
    let point = Vec4 { x: 1, y: 2, z: 3, w: 1000 };
    assert_eq!(point.from_homogeneous(), None);
}

#[test]
fn rotating_a_direction_preserves_forward_norm() {
    // At this yaw the fixed-point cosine and sine form an exact unit
    // pair: (-936)^2 + 352^2 == 1000^2, so the rotated forward direction
    // has exactly the canonical forward's squared length.
    let rot = Mat4::rotation(&Vec3::new(0, 0, -3500));
    let forward = Vec3::new(0, 1000, 0);
    let turned = rot.rotate_direction(&forward);
    assert_eq!(turned, Vec3::new(-352, -936, 0));
    let norm_sq = turned.x * turned.x + turned.y * turned.y + turned.z * turned.z;
    assert_eq!(norm_sq, 1000 * 1000);
}

#[test]
fn rotated_direction_comes_back_homogeneous_zero() {
    let rot = Mat4::rotation(&Vec3::new(0, 0, 500));
    let h = Vec3::new(123, -456, 789).to_homogeneous();
    let turned = rot.mul_vec(&h);
    assert_eq!(turned.w, 0);
}

#[test]
fn matrix_product_rescales() {
    let ones = Mat4::new(
        1000, 1000, 1000, 1000, //
        1000, 1000, 1000, 1000, //
        1000, 1000, 1000, 1000, //
        1000, 1000, 1000, 1000,
    );
    let square = ones.mul(&ones);
    let expected = Mat4::new(
        4000, 4000, 4000, 4000, //
        4000, 4000, 4000, 4000, //
        4000, 4000, 4000, 4000, //
        4000, 4000, 4000, 4000,
    );
    assert_eq!(square, expected);
}

#[test]
fn identity_is_neutral_for_the_product() {
    let identity = Mat4::new(
        1000, 0, 0, 0, //
        0, 1000, 0, 0, //
        0, 0, 1000, 0, //
        0, 0, 0, 1000,
    );
    let m = Mat4::new(
        7, -8, 9, 10, //
        11, 12, -13, 14, //
        -15, 16, 17, 18, //
        19, 20, 21, -22,
    );
    assert_eq!(identity.mul(&m), m);
    assert_eq!(m.mul(&identity), m);
}

#[test]
fn translation_moves_points_not_directions() {
    let t = Mat4::translation(&Vec3::new(500, -600, 700));
    let point = Vec4 { x: 0, y: 0, z: 0, w: 1000 };
    let moved = t.mul_vec(&point);
    assert_eq!(moved, Vec4 { x: 500, y: -600, z: 700, w: 1000 });
    let dir = Vec3::new(0, 1000, 0).to_homogeneous();
    let kept = t.mul_vec(&dir);
    assert_eq!(kept, Vec4 { x: 0, y: 1000, z: 0, w: 0 });
}
