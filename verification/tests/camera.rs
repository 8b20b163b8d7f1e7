use bevy::prelude::{Transform, Vec3};
use wolf_world::camera::{
    driven_camera, move_input, pitch_allowed, settle_look, Look, MoveInput, MoveKeys,
    MIN_LATERAL_BITS, MOVE_SPEED,
};
use wolf_world::scalar::Scalar;

fn scalar(value: f32) -> Scalar {
    Scalar::from_bits(value.to_bits())
}

fn keys(forward: bool, backward: bool, strafe_left: bool, strafe_right: bool) -> MoveKeys {
    MoveKeys { forward, backward, strafe_left, strafe_right }
}

fn lateral(pose: &Transform) -> f32 {
    pose.forward().normalize_or_zero().cross(Vec3::Z).length()
}

fn look_of(pose: Transform) -> Look<Transform> {
    Look { pose, lateral: scalar(lateral(&pose)) }
}

fn turn(pose: &mut Transform, dx: f32, dy: f32, turn_speed: f32) {
    let mut yawed = *pose;
    yawed.rotate_z(-dx * turn_speed);
    let side = yawed.forward().normalize_or_zero().cross(Vec3::Z);
    let mut pitched = yawed;
    pitched.rotate_axis(side.normalize_or_zero(), -dy * turn_speed);
    *pose = settle_look(look_of(yawed), look_of(pitched)).pose;
}

fn displacement(pose: &Transform, held: MoveKeys, dt: f32) -> Vec3 {
    let input = move_input(held);
    let v = Vec3::new(input.x as f32, input.y as f32, 0.0).normalize_or_zero();
    let forward = pose.forward();
    let side = forward.cross(Vec3::Z).normalize_or_zero();
    let speed = MOVE_SPEED as f32;
    forward * v.y * dt * speed + side * v.x * dt * speed
}

#[test]
fn lateral_threshold_is_one_tenth() {
    assert_eq!(MIN_LATERAL_BITS, 0.1f32.to_bits());
}

#[test]
fn pitch_is_allowed_strictly_above_the_threshold() {
    assert!(!pitch_allowed(scalar(0.1)));
    assert!(pitch_allowed(Scalar::from_bits(0.1f32.to_bits() + 1)));
    assert!(!pitch_allowed(Scalar::from_bits(0.1f32.to_bits() - 1)));
    assert!(pitch_allowed(scalar(1.0)));
    assert!(pitch_allowed(scalar(0.5)));
    assert!(!pitch_allowed(scalar(0.0)));
    assert!(!pitch_allowed(scalar(0.05)));
    assert!(!pitch_allowed(scalar(-1.0)));
    assert!(!pitch_allowed(scalar(f32::NAN)));
}

#[test]
fn settle_look_takes_the_pitched_pose_when_it_is_clear() {
    let yawed = Look { pose: "yawed", lateral: scalar(1.0) };
    let pitched = Look { pose: "pitched", lateral: scalar(0.7) };
    assert_eq!(settle_look(yawed, pitched), pitched);
}

#[test]
fn settle_look_keeps_the_yawed_pose_when_the_pitch_is_too_steep() {
    let yawed = Look { pose: "yawed", lateral: scalar(0.12) };
    let pitched = Look { pose: "pitched", lateral: scalar(0.09) };
    assert_eq!(settle_look(yawed, pitched), yawed);
    let on_the_line = Look { pose: "pitched", lateral: scalar(0.1) };
    assert_eq!(settle_look(yawed, on_the_line), yawed);
    let broken = Look { pose: "pitched", lateral: scalar(f32::NAN) };
    assert_eq!(settle_look(yawed, broken), yawed);
}

#[test]
fn looking_down_again_and_again_never_reaches_the_vertical() {
    let mut pose = Transform::from_xyz(0.0, 0.0, 0.5).looking_to(Vec3::X, Vec3::Z);
    assert!(lateral(&pose) > 0.1);
    for _ in 0..2000 {
        turn(&mut pose, 0.0, -250.0, 0.001);
        assert!(lateral(&pose) > 0.1, "lateral axis shrank to {}", lateral(&pose));
    }
    for _ in 0..2000 {
        turn(&mut pose, 0.0, -3.0, 0.001);
        assert!(lateral(&pose) > 0.1, "lateral axis shrank to {}", lateral(&pose));
    }
    assert!(lateral(&pose) < 0.2);
}

#[test]
fn looking_up_again_and_again_never_reaches_the_vertical() {
    let mut pose = Transform::from_xyz(0.0, 0.0, 0.5).looking_to(Vec3::X, Vec3::Z);
    for _ in 0..2000 {
        turn(&mut pose, 0.0, 170.0, 0.001);
        assert!(lateral(&pose) > 0.1, "lateral axis shrank to {}", lateral(&pose));
    }
}

#[test]
fn a_pitch_that_is_refused_still_lets_the_camera_turn() {
    let mut pose = Transform::from_xyz(0.0, 0.0, 0.5).looking_to(Vec3::X, Vec3::Z);
    let before = pose.forward();
    turn(&mut pose, 0.1, std::f32::consts::FRAC_PI_2, 1.0);
    let after = pose.forward();
    assert!(after.z.abs() < 1.0e-5, "pitch was applied: {:?}", after);
    assert!((after - before).length() > 0.05, "yaw was lost: {:?}", after);
    assert!(lateral(&pose) > 0.1);
}

#[test]
fn keys_map_to_axes_and_opposite_keys_cancel() {
    assert_eq!(move_input(keys(false, false, false, false)), MoveInput { x: 0, y: 0 });
    assert_eq!(move_input(keys(true, false, false, false)), MoveInput { x: 0, y: 1 });
    assert_eq!(move_input(keys(false, true, false, false)), MoveInput { x: 0, y: -1 });
    assert_eq!(move_input(keys(false, false, true, false)), MoveInput { x: -1, y: 0 });
    assert_eq!(move_input(keys(false, false, false, true)), MoveInput { x: 1, y: 0 });
    assert_eq!(move_input(keys(true, true, false, false)), MoveInput { x: 0, y: 0 });
    assert_eq!(move_input(keys(false, false, true, true)), MoveInput { x: 0, y: 0 });
    assert_eq!(move_input(keys(true, false, false, true)), MoveInput { x: 1, y: 1 });
    assert_eq!(move_input(keys(false, true, true, false)), MoveInput { x: -1, y: -1 });
    assert_eq!(move_input(keys(true, true, true, true)), MoveInput { x: 0, y: 0 });
    assert_eq!(move_input(keys(true, true, false, true)), MoveInput { x: 1, y: 0 });
}

#[test]
fn diagonal_movement_is_no_faster_than_straight_movement() {
    assert_eq!(MOVE_SPEED, 10);
    let pose = Transform::from_xyz(2.0, 3.0, 0.5).looking_to(Vec3::X, Vec3::Z);
    let diagonal = displacement(&pose, keys(true, false, false, true), 1.0);
    assert!((diagonal.length() - 10.0).abs() < 1.0e-4, "moved {}", diagonal.length());
    assert!((diagonal.length() - 10.0 * 2.0f32.sqrt()).abs() > 1.0);
    let straight = displacement(&pose, keys(true, false, false, false), 1.0);
    assert!((straight.length() - 10.0).abs() < 1.0e-4, "moved {}", straight.length());
    let still = displacement(&pose, keys(true, true, false, false), 1.0);
    assert_eq!(still.length(), 0.0);
    let half_second = displacement(&pose, keys(false, true, true, false), 0.5);
    assert!((half_second.length() - 5.0).abs() < 1.0e-4, "moved {}", half_second.length());
}

#[test]
fn input_drives_the_first_camera_only() {
    assert_eq!(driven_camera(0), None);
    assert_eq!(driven_camera(1), Some(0));
    assert_eq!(driven_camera(5), Some(0));
    assert_eq!(driven_camera(usize::MAX), Some(0));
}
