use terrain_scene::fixed::{isqrt, mul_div, sat_add, Vec3, UNIT};
use terrain_scene::mat4::Mat4;
use terrain_scene::trig::{cos_udeg, sin_udeg};

#[test]
fn isqrt_small_values() {
    assert_eq!(isqrt(0), 0);
    assert_eq!(isqrt(1), 1);
    assert_eq!(isqrt(2), 1);
    assert_eq!(isqrt(3), 1);
    assert_eq!(isqrt(4), 2);
    assert_eq!(isqrt(99), 9);
    assert_eq!(isqrt(100), 10);
}

#[test]
fn isqrt_unit_squares() {
    assert_eq!(isqrt(1_000_000_000_000), 1_000_000);
    assert_eq!(isqrt(25_000_000_000_000), 5_000_000);
}

#[test]
fn mul_div_truncates_toward_zero() {
    assert_eq!(mul_div(7, 2, 4), 3);
    assert_eq!(mul_div(-7, 2, 4), -3);
    assert_eq!(mul_div(7, -2, 4), -3);
    assert_eq!(mul_div(-7, -2, 4), 3);
}

#[test]
fn sat_add_clamps_at_the_ends() {
    assert_eq!(sat_add(1, 2), 3);
    assert_eq!(sat_add(i64::MAX, 1), i64::MAX);
    assert_eq!(sat_add(i64::MIN, -1), i64::MIN);
}

#[test]
fn normalize_three_four_five() {
    let v = Vec3::new(3 * UNIT, 4 * UNIT, 0);
    let n = v.normalize();
    assert_eq!(n, Vec3::new(600_000, 800_000, 0));
}

#[test]
fn normalize_zero_stays_zero() {
    assert_eq!(Vec3::zero().normalize(), Vec3::zero());
}

#[test]
fn cross_of_axes() {
    let x = Vec3::new(UNIT, 0, 0);
    let y = Vec3::new(0, UNIT, 0);
    assert_eq!(x.cross(y), Vec3::new(0, 0, UNIT));
}

#[test]
fn sine_exact_at_quarter_turns() {
    assert_eq!(sin_udeg(0), 0);
    assert_eq!(sin_udeg(90_000_000), UNIT);
    assert_eq!(sin_udeg(180_000_000), 0);
    assert_eq!(sin_udeg(270_000_000), -UNIT);
    assert_eq!(sin_udeg(-90_000_000), -UNIT);
    assert_eq!(cos_udeg(0), UNIT);
    assert_eq!(cos_udeg(90_000_000), 0);
    assert_eq!(cos_udeg(180_000_000), -UNIT);
}

#[test]
fn sine_of_thirty_degrees_is_exact_in_this_approximation() {
    assert_eq!(sin_udeg(30_000_000), 500_000);
}

#[test]
fn sine_is_periodic() {
    assert_eq!(sin_udeg(45_000_000), sin_udeg(45_000_000 + 360_000_000));
    assert_eq!(sin_udeg(-45_000_000), sin_udeg(-45_000_000 + 360_000_000));
}

#[test]
fn identity_and_translation_entries() {
    let id = Mat4::identity();
    assert_eq!(id.x_axis.x, UNIT);
    assert_eq!(id.y_axis.y, UNIT);
    assert_eq!(id.z_axis.z, UNIT);
    assert_eq!(id.w_axis.w, UNIT);
    assert_eq!(id.w_axis.x, 0);

    let t = Mat4::from_translation(Vec3::new(1, 2, 3));
    assert_eq!(t.w_axis.x, 1);
    assert_eq!(t.w_axis.y, 2);
    assert_eq!(t.w_axis.z, 3);
    assert_eq!(t.x_axis, id.x_axis);
}

#[test]
fn perspective_for_a_window() {
    let p = Mat4::perspective(800, 600, UNIT / 10, 100 * UNIT);
    assert_eq!(p.x_axis.x, 750_000);
    assert_eq!(p.y_axis.y, UNIT);
    assert_eq!(p.z_axis.z, -1_002_002);
    assert_eq!(p.z_axis.w, -UNIT);
    assert_eq!(p.w_axis.z, -200_200);
    assert_eq!(p.w_axis.w, 0);
}

#[test]
fn look_to_down_negative_z_from_origin() {
    let eye = Vec3::new(0, 0, 0);
    let dir = Vec3::new(0, 0, -UNIT);
    let up = Vec3::new(0, UNIT, 0);
    let m = Mat4::look_to(eye, dir, up);
    // Right is +x, up stays +y, forward's negation is +z.
    assert_eq!(m.x_axis.x, UNIT);
    assert_eq!(m.y_axis.y, UNIT);
    assert_eq!(m.z_axis.z, UNIT);
    assert_eq!(m.w_axis.w, UNIT);
    assert_eq!(m.w_axis.x, 0);
    assert_eq!(m.w_axis.y, 0);
    assert_eq!(m.w_axis.z, 0);
}
