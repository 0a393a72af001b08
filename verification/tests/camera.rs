use terrain_scene::camera::{Camera, CameraMovement, MovementState, PITCH_LIMIT_UDEG};
use terrain_scene::fixed::{Vec3, UNIT};

fn fresh_state() -> MovementState {
    MovementState {
        forward: false,
        back: false,
        left: false,
        right: false,
        up: false,
        down: false,
    }
}

#[test]
fn opposing_keys_cancel() {
    let mut s = fresh_state();
    s.want_move(CameraMovement::Front);
    s.want_move(CameraMovement::Back);
    assert!(!s.moves());
    let front = Vec3::new(0, 0, -UNIT);
    let up = Vec3::new(0, UNIT, 0);
    assert_eq!(s.as_direction(front, up), Vec3::new(0, 0, 0));
}

#[test]
fn forward_alone_moves_along_front() {
    let mut s = fresh_state();
    s.want_move(CameraMovement::Front);
    assert!(s.moves());
    let front = Vec3::new(0, 0, -UNIT);
    let up = Vec3::new(0, UNIT, 0);
    assert_eq!(s.as_direction(front, up), front);
}

#[test]
fn stop_move_releases_a_key() {
    let mut s = fresh_state();
    s.want_move(CameraMovement::Left);
    assert!(s.moves());
    s.stop_move(CameraMovement::Left);
    assert!(!s.moves());
}

#[test]
fn pitch_saturates_at_the_clamp_limit() {
    let mut cam = Camera::from_pos(Vec3::new(0, 0, 0));
    // Each delta adds a tenth of its micro-counts in micro-degrees; drive
    // far past the limit in both directions.
    for _ in 0..5 {
        cam.mouse_moved(0, 400_000_000);
    }
    assert_eq!(cam.pitch, PITCH_LIMIT_UDEG);
    for _ in 0..10 {
        cam.mouse_moved(0, -400_000_000);
    }
    assert_eq!(cam.pitch, -PITCH_LIMIT_UDEG);
}

#[test]
fn mouse_sensitivity_is_a_tenth() {
    let mut cam = Camera::from_pos(Vec3::new(0, 0, 0));
    cam.mouse_moved(10_000_000, 20_000_000);
    // Yaw starts a quarter turn back and folds into one turn.
    assert_eq!(cam.yaw, -90_000_000 + 1_000_000 + 360_000_000);
    assert_eq!(cam.pitch, 2_000_000);
}

#[test]
fn default_camera_faces_negative_z() {
    let cam = Camera::from_pos(Vec3::new(0, 0, 0));
    assert_eq!(cam.front(), Vec3::new(0, 0, -UNIT));
}

#[test]
fn scenario_two_steps_along_front() {
    let start = Vec3::new(25 * UNIT, 5 * UNIT, 25 * UNIT);
    let mut cam = Camera::from_pos(start);
    let front = cam.front();
    assert_eq!(front, Vec3::new(0, 0, -UNIT));
    cam.want_move(CameraMovement::Front);

    cam.update(16);
    let after_one = cam.pos;
    cam.update(16);
    let after_two = cam.pos;

    // Both steps move strictly along the initial front vector...
    assert_eq!(after_one.x, start.x);
    assert_eq!(after_one.y, start.y);
    assert_eq!(after_two.x, start.x);
    assert_eq!(after_two.y, start.y);
    // ...and the second step covers exactly the same distance as the first.
    let step1 = start.z - after_one.z;
    let step2 = after_one.z - after_two.z;
    assert_eq!(step1, step2);
    assert_eq!(step1, 160_000);
}

#[test]
fn update_without_keys_stays_put() {
    let start = Vec3::new(UNIT, 2 * UNIT, 3 * UNIT);
    let mut cam = Camera::from_pos(start);
    cam.update(100);
    assert_eq!(cam.pos, start);
}
