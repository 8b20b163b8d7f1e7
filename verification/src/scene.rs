//! Scene objects: what a tile, and a map as a whole, turns into.
//!
//! A scene object is described here by the plain values that determine it.
//! Building the pose, geometry and material from that description is the
//! caller's part; every choice that is a rule of this world (which tag
//! yields which object, where it stands, how large the floor is) is made
//! here.

use vstd::prelude::*;

use crate::grid::{lemma_cell_in_range, LayerView, TileMapView};
use crate::scalar::Scalar;
use crate::tile::{GridIndex, Position, Tile, TileView};

verus! {

/// Bit pattern of the height at which a camera stands: one half.
pub const CAMERA_HEIGHT_BITS: u32 = 0x3f00_0000;

/// Side length of the ceiling plane, whatever the map's size.
pub const CEILING_SIZE: u32 = 64;

/// Height at which the floor lies.
pub const FLOOR_LEVEL: u32 = 0;

/// Height at which the ceiling lies.
pub const CEILING_LEVEL: u32 = 1;

/// One object of the live scene, as the instantiation pipeline orders it.
#[derive(Clone, Debug, PartialEq, Eq)]
pub enum SceneObject {
    /// The active camera. It stands at `position`, which is the tile's own
    /// position on the ground raised to the camera height, and looks along
    /// the positive X axis.
    Camera { position: Position },
    /// Solid, opaque geometry on the ground plane at the grid cell `index`.
    Block { index: GridIndex, image: String },
    /// A translucent sprite at `position`; it is turned to face the camera
    /// every frame.
    Sprite { position: Position, image: String },
    /// The ground plane: a square of side `size` at [`FLOOR_LEVEL`],
    /// centred on the midpoint of a map `width` cells wide and `height`
    /// cells high, which is `(width / 2, height / 2)` on the ground.
    Floor { size: u32, width: u32, height: u32 },
    /// The ceiling plane: a square of side `size` at [`CEILING_LEVEL`],
    /// centred on the midpoint of the map as the floor is.
    Ceiling { size: u32, width: u32, height: u32 },
}

/// What a [`SceneObject`] is, mathematically.
pub enum SceneObjectView {
    Camera { position: Position },
    Block { index: GridIndex, image: Seq<char> },
    Sprite { position: Position, image: Seq<char> },
    Floor { size: u32, width: u32, height: u32 },
    Ceiling { size: u32, width: u32, height: u32 },
}

impl View for SceneObject {
    type V = SceneObjectView;

    open spec fn view(&self) -> SceneObjectView {
        match *self {
            SceneObject::Camera { position } => SceneObjectView::Camera { position },
            SceneObject::Block { index, image } => SceneObjectView::Block { index, image: image@ },
            SceneObject::Sprite { position, image } => SceneObjectView::Sprite {
                position,
                image: image@,
            },
            SceneObject::Floor { size, width, height } => SceneObjectView::Floor {
                size,
                width,
                height,
            },
            SceneObject::Ceiling { size, width, height } => SceneObjectView::Ceiling {
                size,
                width,
                height,
            },
        }
    }
}

/// The views of a list of objects, in order.
pub open spec fn object_views(objects: Seq<SceneObject>) -> Seq<SceneObjectView> {
    objects.map_values(|object: SceneObject| object@)
}

/// The tag that makes a tile the active camera.
pub open spec fn camera_tag() -> Seq<char> {
    "camera"@
}

/// The tag that makes a tile solid geometry.
pub open spec fn block_tag() -> Seq<char> {
    "block"@
}

/// The tag that makes a tile a sprite.
pub open spec fn sprite_tag() -> Seq<char> {
    "sprite"@
}

/// Where the camera of a tile at `position` stands: over the same ground
/// point, at the camera height.
pub open spec fn camera_position(position: Position) -> Position {
    Position { x: position.x, y: position.y, z: Scalar { bits: CAMERA_HEIGHT_BITS } }
}

/// The camera a tile yields, if it is tagged as one.
pub open spec fn camera_of(tile: TileView) -> Seq<SceneObjectView> {
    if tile.class_tags.contains(camera_tag()) {
        seq![SceneObjectView::Camera { position: camera_position(tile.position) }]
    } else {
        Seq::empty()
    }
}

/// The block a tile yields, if it is tagged as one.
pub open spec fn block_of(tile: TileView) -> Seq<SceneObjectView> {
    if tile.class_tags.contains(block_tag()) {
        seq![SceneObjectView::Block { index: tile.index, image: tile.image }]
    } else {
        Seq::empty()
    }
}

/// The sprite a tile yields, if it is tagged as one.
pub open spec fn sprite_of(tile: TileView) -> Seq<SceneObjectView> {
    if tile.class_tags.contains(sprite_tag()) {
        seq![SceneObjectView::Sprite { position: tile.position, image: tile.image }]
    } else {
        Seq::empty()
    }
}

/// The objects of one tile: one per recognised tag it carries, camera
/// first, then block, then sprite. Other tags yield nothing.
pub open spec fn tile_objects(tile: TileView) -> Seq<SceneObjectView> {
    camera_of(tile) + block_of(tile) + sprite_of(tile)
}

/// The objects of one cell: those of its tile, or none.
pub open spec fn cell_objects(cell: Option<TileView>) -> Seq<SceneObjectView> {
    match cell {
        Some(tile) => tile_objects(tile),
        None => Seq::empty(),
    }
}

/// The objects of a run of cells, cell after cell.
pub open spec fn cells_objects(cells: Seq<Option<TileView>>) -> Seq<SceneObjectView>
    decreases cells.len(),
{
    if cells.len() == 0 {
        Seq::empty()
    } else {
        cells_objects(cells.drop_last()) + cell_objects(cells.last())
    }
}

/// The objects of a run of layers, layer after layer, each in row-major
/// order.
pub open spec fn layers_objects(layers: Seq<LayerView>) -> Seq<SceneObjectView>
    decreases layers.len(),
{
    if layers.len() == 0 {
        Seq::empty()
    } else {
        layers_objects(layers.drop_last()) + cells_objects(layers.last().cells)
    }
}

/// Side length of the floor of a map: the larger of its two dimensions.
pub open spec fn floor_size(width: nat, height: nat) -> nat {
    if height >= width {
        height
    } else {
        width
    }
}

/// The floor and the ceiling of a map of the given dimensions. The floor
/// is as large as the larger dimension and the ceiling has a fixed size;
/// both are centred on the midpoint of the map.
pub open spec fn furniture_objects(width: nat, height: nat) -> Seq<SceneObjectView> {
    seq![
        SceneObjectView::Floor {
            size: floor_size(width, height) as u32,
            width: width as u32,
            height: height as u32,
        },
        SceneObjectView::Ceiling {
            size: CEILING_SIZE,
            width: width as u32,
            height: height as u32,
        },
    ]
}

/// Every object of a map: those of its tiles, layer by layer and row by
/// row, then the floor and the ceiling.
pub open spec fn map_objects(map: TileMapView) -> Seq<SceneObjectView> {
    layers_objects(map.layers) + furniture_objects(map.width, map.height)
}

/// Appending one cell to a run appends that cell's objects.
pub proof fn lemma_cells_objects_push(cells: Seq<Option<TileView>>, cell: Option<TileView>)
    ensures
        cells_objects(cells.push(cell)) == cells_objects(cells) + cell_objects(cell),
{
    assert(cells.push(cell).drop_last() =~= cells);
}

/// Appending one layer to a run appends that layer's objects.
pub proof fn lemma_layers_objects_push(layers: Seq<LayerView>, layer: LayerView)
    ensures
        layers_objects(layers.push(layer)) == layers_objects(layers) + cells_objects(layer.cells),
{
    assert(layers.push(layer).drop_last() =~= layers);
}

/// Whatever one cell of a run yields is among the objects of the run.
pub proof fn lemma_cell_objects_kept(
    cells: Seq<Option<TileView>>,
    at: int,
    object: SceneObjectView,
)
    requires
        0 <= at < cells.len(),
        cell_objects(cells[at]).contains(object),
    ensures
        cells_objects(cells).contains(object),
    decreases cells.len(),
{
    let earlier = cells_objects(cells.drop_last());
    let last = cell_objects(cells.last());
    if at == cells.len() - 1 {
        let i = choose|i: int| 0 <= i < last.len() && last[i] == object;
        assert((earlier + last)[earlier.len() + i] == object);
    } else {
        lemma_cell_objects_kept(cells.drop_last(), at, object);
        let i = choose|i: int| 0 <= i < earlier.len() && earlier[i] == object;
        assert((earlier + last)[i] == object);
    }
}

/// Whatever one layer of a run yields is among the objects of the run.
pub proof fn lemma_layer_objects_kept(layers: Seq<LayerView>, at: int, object: SceneObjectView)
    requires
        0 <= at < layers.len(),
        cells_objects(layers[at].cells).contains(object),
    ensures
        layers_objects(layers).contains(object),
    decreases layers.len(),
{
    let earlier = layers_objects(layers.drop_last());
    let last = cells_objects(layers.last().cells);
    if at == layers.len() - 1 {
        let i = choose|i: int| 0 <= i < last.len() && last[i] == object;
        assert((earlier + last)[earlier.len() + i] == object);
    } else {
        lemma_layer_objects_kept(layers.drop_last(), at, object);
        let i = choose|i: int| 0 <= i < earlier.len() && earlier[i] == object;
        assert((earlier + last)[i] == object);
    }
}

/// Each object of the tile in a cell is among the objects of the map.
pub proof fn lemma_tile_object_kept(map: TileMapView, layer: int, x: int, y: int, i: int)
    requires
        map.wf(),
        0 <= layer < map.layers.len(),
        0 <= x < map.width,
        0 <= y < map.height,
        map.layers[layer].cell(x, y) is Some,
        0 <= i < tile_objects(map.layers[layer].cell(x, y)->0).len(),
    ensures
        map_objects(map).contains(tile_objects(map.layers[layer].cell(x, y)->0)[i]),
{
    let plane = map.layers[layer];
    let object = tile_objects(plane.cell(x, y)->0)[i];
    let tiles = layers_objects(map.layers);
    lemma_cell_in_range(x, y, plane.width as int, plane.height as int);
    lemma_cell_objects_kept(plane.cells, y * plane.width + x, object);
    lemma_layer_objects_kept(map.layers, layer, object);
    let k = choose|k: int| 0 <= k < tiles.len() && tiles[k] == object;
    assert((tiles + furniture_objects(map.width, map.height))[k] == object);
}

/// Every occupied cell shows in the scene where the map puts it. Take the
/// tile in column `x`, row `y` of any layer of a well-formed map. If it is
/// tagged as a block, the map's objects hold a block at grid cell
/// `(x, y)` with the tile's image; if it is tagged as a sprite, they hold a
/// sprite at exactly the tile's position; if it is tagged as a camera, they
/// hold a camera over the tile's ground position at the camera height.
pub proof fn lemma_grid_round_trip(map: TileMapView, layer: int, x: int, y: int)
    requires
        map.wf(),
        0 <= layer < map.layers.len(),
        0 <= x < map.width,
        0 <= y < map.height,
        map.layers[layer].cell(x, y) is Some,
    ensures
        ({
            let tile = map.layers[layer].cell(x, y)->0;
            &&& tile.class_tags.contains(block_tag()) ==> map_objects(map).contains(
                SceneObjectView::Block {
                    index: GridIndex { x: x as u32, y: y as u32 },
                    image: tile.image,
                },
            )
            &&& tile.class_tags.contains(sprite_tag()) ==> map_objects(map).contains(
                SceneObjectView::Sprite { position: tile.position, image: tile.image },
            )
            &&& tile.class_tags.contains(camera_tag()) ==> map_objects(map).contains(
                SceneObjectView::Camera { position: camera_position(tile.position) },
            )
        }),
{
    let tile = map.layers[layer].cell(x, y)->0;
    let cameras = camera_of(tile).len() as int;
    let blocks = block_of(tile).len() as int;
    assert(tile.index.x == x && tile.index.y == y);
    if tile.class_tags.contains(camera_tag()) {
        lemma_tile_object_kept(map, layer, x, y, 0);
    }
    if tile.class_tags.contains(block_tag()) {
        lemma_tile_object_kept(map, layer, x, y, cameras);
    }
    if tile.class_tags.contains(sprite_tag()) {
        lemma_tile_object_kept(map, layer, x, y, cameras + blocks);
    }
}

/// A tile yields no more than its tags ask for: an object of a tile is a
/// camera, a block or a sprite, and the tile carries the tag for it.
pub proof fn lemma_tile_objects_tagged(tile: TileView, i: int)
    requires
        0 <= i < tile_objects(tile).len(),
    ensures
        match tile_objects(tile)[i] {
            SceneObjectView::Camera { position } => tile.class_tags.contains(camera_tag())
                && position == camera_position(tile.position),
            SceneObjectView::Block { index, image } => tile.class_tags.contains(block_tag())
                && index == tile.index && image == tile.image,
            SceneObjectView::Sprite { position, image } => tile.class_tags.contains(sprite_tag())
                && position == tile.position && image == tile.image,
            _ => false,
        },
{
}

/// The scene objects of one tile.
pub fn spawn_objects(tile: &Tile) -> (objects: Vec<SceneObject>)
    ensures
        object_views(objects@) == tile_objects(tile@),
{
    let mut objects: Vec<SceneObject> = Vec::new();
    if tile.has_class("camera") {
        let position = Position {
            x: tile.position.x,
            y: tile.position.y,
            z: Scalar { bits: CAMERA_HEIGHT_BITS },
        };
        objects.push(SceneObject::Camera { position });
    }
    assert(object_views(objects@) =~= camera_of(tile@));
    if tile.has_class("block") {
        objects.push(SceneObject::Block { index: tile.index, image: tile.image.clone() });
    }
    assert(object_views(objects@) =~= camera_of(tile@) + block_of(tile@));
    if tile.has_class("sprite") {
        objects.push(SceneObject::Sprite { position: tile.position, image: tile.image.clone() });
    }
    assert(object_views(objects@) =~= tile_objects(tile@));
    objects
}

/// The floor and the ceiling of a map of the given dimensions, in that
/// order.
pub fn spawn_furniture(width: u32, height: u32) -> (objects: Vec<SceneObject>)
    ensures
        object_views(objects@) == furniture_objects(width as nat, height as nat),
{
    let size: u32 = if height >= width { height } else { width };
    let mut objects: Vec<SceneObject> = Vec::new();
    objects.push(SceneObject::Floor { size, width, height });
    objects.push(SceneObject::Ceiling { size: CEILING_SIZE, width, height });
    assert(object_views(objects@) =~= furniture_objects(width as nat, height as nat));
    objects
}

} // verus!
