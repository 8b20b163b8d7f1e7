use bevy::prelude::{Transform, Vec3};
use wolf_world::billboard::{billboard_target, faced_camera, FACING_QUARTER_TURNS};
use wolf_world::scalar::Scalar;
use wolf_world::tile::Position;

fn scalar(value: f32) -> Scalar {
    Scalar::from_bits(value.to_bits())
}

fn position(x: f32, y: f32, z: f32) -> Position {
    Position { x: scalar(x), y: scalar(y), z: scalar(z) }
}

fn vec3(p: Position) -> Vec3 {
    Vec3::new(f32::from_bits(p.x.bits), f32::from_bits(p.y.bits), f32::from_bits(p.z.bits))
}

#[test]
fn target_lies_over_the_camera_at_the_height_of_the_sprite() {
    let camera = position(4.0, -2.5, 0.5);
    let sprite = position(1.0, 1.0, 0.125);
    assert_eq!(billboard_target(camera, sprite), position(4.0, -2.5, 0.125));
    assert_eq!(billboard_target(sprite, camera), position(1.0, 1.0, 0.5));
    assert_eq!(billboard_target(camera, camera), camera);
}

#[test]
fn sprites_face_the_last_camera() {
    let first = position(0.0, 0.0, 0.5);
    let second = position(9.0, 9.0, 0.5);
    assert_eq!(faced_camera(&vec![]), None);
    assert_eq!(faced_camera(&vec![first]), Some(first));
    assert_eq!(faced_camera(&vec![first, second]), Some(second));
    assert_eq!(faced_camera(&vec![second, first]), Some(first));
}

#[test]
fn a_turned_sprite_keeps_upright_and_shows_its_side_to_the_camera() {
    assert_eq!(FACING_QUARTER_TURNS, 1);
    let camera = position(5.0, 1.0, 0.5);
    let sprite = position(1.0, 1.0, 0.0);
    let target = billboard_target(camera, sprite);
    let mut pose = Transform::from_translation(vec3(sprite));
    pose.look_at(vec3(target), Vec3::Z);
    pose.rotate_z(FACING_QUARTER_TURNS as f32 * std::f32::consts::FRAC_PI_2);
    assert!((pose.up() - Vec3::Z).length() < 1.0e-5, "tilted: {:?}", pose.up());
    assert!(pose.forward().z.abs() < 1.0e-5);
    let to_camera = (vec3(target) - vec3(sprite)).normalize();
    assert!(pose.forward().dot(to_camera).abs() < 1.0e-5);
}
