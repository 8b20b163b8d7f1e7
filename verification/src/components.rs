//! Data that is attached to scene objects.

use vstd::prelude::*;

use crate::scalar::Scalar;
use crate::tile::Position;

verus! {

/// A request to spawn `variant`.
#[derive(Debug, PartialEq, Eq)]
pub struct Spawn<T: Clone> {
    pub variant: T,
}

impl<T: Clone> Clone for Spawn<T> {
    /// A second request for a clone of the same value.
    fn clone(&self) -> (copy: Self)
        ensures
            cloned(self.variant, copy.variant),
    {
        Spawn { variant: self.variant.clone() }
    }
}

impl<T: Clone> Spawn<T> {
    /// A request to spawn `t`.
    pub fn new(t: T) -> (spawn: Self)
        ensures
            spawn.variant == t,
    {
        Self { variant: t }
    }
}

/// The state of a camera: where it stands and its yaw. The yaw is not
/// read by the controller, which keeps the orientation in the pose.
#[derive(Clone, Copy, Debug, PartialEq, Eq, Structural)]
pub struct Cam {
    pub pos: Position,
    pub yaw: Scalar,
}

/// A thing that has a place in the world.
#[derive(Clone, Copy, Debug, PartialEq, Eq, Structural)]
pub struct Thing {
    pub pos: Position,
}

/// The origin of the world: every coordinate is positive zero.
pub open spec fn origin() -> Position {
    Position { x: Scalar { bits: 0 }, y: Scalar { bits: 0 }, z: Scalar { bits: 0 } }
}

impl Default for Cam {
    /// A camera at the origin with a yaw of zero.
    fn default() -> (cam: Cam)
        ensures
            cam.pos == origin(),
            cam.yaw == (Scalar { bits: 0 }),
    {
        Cam {
            pos: Position { x: Scalar { bits: 0 }, y: Scalar { bits: 0 }, z: Scalar { bits: 0 } },
            yaw: Scalar { bits: 0 },
        }
    }
}

impl Default for Thing {
    /// A thing at the origin.
    fn default() -> (thing: Thing)
        ensures
            thing.pos == origin(),
    {
        Thing {
            pos: Position { x: Scalar { bits: 0 }, y: Scalar { bits: 0 }, z: Scalar { bits: 0 } },
        }
    }
}

} // verus!
