use wolf_world::components::{Cam, Spawn, Thing};
use wolf_world::scalar::Scalar;
use wolf_world::tile::Position;

fn zero() -> Scalar {
    Scalar::from_bits(0.0f32.to_bits())
}

#[test]
fn spawn_holds_what_it_was_made_with() {
    assert_eq!(Spawn::new(7u8).variant, 7);
    let thing = Thing { pos: Position { x: Scalar::from_bits(1), y: zero(), z: zero() } };
    assert_eq!(Spawn::new(thing).variant, thing);
    assert_eq!(Spawn::new("x".to_string()).clone().variant, "x");
}

#[test]
fn a_cloned_spawn_holds_a_clone_of_the_same_value() {
    let spawn = Spawn::new(vec![1u8, 2, 3]);
    let copy = spawn.clone();
    assert_eq!(copy.variant, vec![1, 2, 3]);
    assert_eq!(copy, spawn);
    assert_eq!(Spawn::new(7u8).clone().variant, 7);
}

#[test]
fn default_camera_stands_at_the_origin() {
    let cam = Cam::default();
    assert_eq!(cam.pos, Position { x: zero(), y: zero(), z: zero() });
    assert_eq!(cam.yaw, zero());
    assert_eq!(f32::from_bits(cam.yaw.bits), 0.0);
}

#[test]
fn default_thing_stands_at_the_origin() {
    assert_eq!(Thing::default().pos, Position { x: zero(), y: zero(), z: zero() });
}
