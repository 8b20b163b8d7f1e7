//! Decisions of the billboard routine, which keeps sprites facing the
//! camera.
//!
//! A sprite is turned about the vertical axis only: it looks at the point
//! that lies over the camera's ground position at the sprite's own height,
//! and is then turned a further quarter turn to make up for the way its
//! geometry faces.

use vstd::prelude::*;

use crate::tile::Position;

verus! {

/// Quarter turns about the vertical axis that are applied to a sprite after
/// it has been made to look at its target.
pub const FACING_QUARTER_TURNS: u32 = 1;

/// The point a sprite looks at: the camera's ground position, at the
/// sprite's height.
pub open spec fn target_of(camera: Position, sprite: Position) -> Position {
    Position { x: camera.x, y: camera.y, z: sprite.z }
}

/// The camera that sprites face, among the cameras of the scene in the
/// order it lists them: the last one, if there is any.
pub open spec fn faced(cameras: Seq<Position>) -> Option<Position> {
    if cameras.len() == 0 {
        None
    } else {
        Some(cameras.last())
    }
}

/// The point the sprite at `sprite` is to look at when the camera stands
/// at `camera`.
pub fn billboard_target(camera: Position, sprite: Position) -> (target: Position)
    ensures
        target == target_of(camera, sprite),
{
    Position { x: camera.x, y: camera.y, z: sprite.z }
}

/// The position of the camera that every sprite is to face. With no camera
/// in the scene the sprites are left as they are.
pub fn faced_camera(cameras: &Vec<Position>) -> (camera: Option<Position>)
    ensures
        camera == faced(cameras@),
{
    let count: usize = cameras.len();
    if count == 0 {
        None
    } else {
        Some(cameras[count - 1])
    }
}

} // verus!
