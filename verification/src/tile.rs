//! Tile definitions: the static description of one placeable thing.

use vstd::prelude::*;

use crate::scalar::Scalar;

verus! {

/// A point of the continuous world, one scalar per axis. The ground is the
/// XY plane and Z points up.
#[derive(Clone, Copy, Debug, PartialEq, Eq, Structural)]
pub struct Position {
    pub x: Scalar,
    pub y: Scalar,
    pub z: Scalar,
}

/// An integer coordinate on the ground grid: `x` counts columns and `y`
/// counts rows.
#[derive(Clone, Copy, Debug, PartialEq, Eq, Structural)]
pub struct GridIndex {
    pub x: u32,
    pub y: u32,
}

/// The static description of one placeable map element.
///
/// A tile is immutable once parsed. Its class tags decide which scene
/// objects it turns into; a tile may carry several.
#[derive(Clone, Debug, PartialEq, Eq)]
pub struct Tile {
    /// Where the tile stands in the continuous world.
    pub position: Position,
    /// The grid cell the tile belongs to.
    pub index: GridIndex,
    /// The classes of the tile, such as `camera`, `block` or `sprite`.
    /// Order and repetition carry no meaning.
    pub class_tags: Vec<String>,
    /// Path of the texture the tile is drawn with.
    pub image: String,
}

/// What a [`Tile`] is, mathematically: its tags form a set of strings.
pub struct TileView {
    pub position: Position,
    pub index: GridIndex,
    pub class_tags: Set<Seq<char>>,
    pub image: Seq<char>,
}

/// The set of strings that occur in a list of tags.
pub open spec fn tag_set(tags: Seq<String>) -> Set<Seq<char>> {
    Set::new(|s: Seq<char>| exists|i: int| 0 <= i < tags.len() && (#[trigger] tags[i])@ == s)
}

impl View for Tile {
    type V = TileView;

    open spec fn view(&self) -> TileView {
        TileView {
            position: self.position,
            index: self.index,
            class_tags: tag_set(self.class_tags@),
            image: self.image@,
        }
    }
}

impl Tile {
    /// Whether the tile carries the class `name`.
    pub fn has_class(&self, name: &str) -> (found: bool)
        ensures
            found == self@.class_tags.contains(name@),
    {
        let wanted: String = name.to_owned();
        let mut i: usize = 0;
        while i < self.class_tags.len()
            invariant
                i <= self.class_tags.len(),
                wanted@ == name@,
                forall|j: int| 0 <= j < i ==> (#[trigger] self.class_tags@[j])@ != name@,
            decreases self.class_tags.len() - i,
        {
            if self.class_tags[i] == wanted {
                return true;
            }
            i += 1;
        }
        false
    }
}

} // verus!
