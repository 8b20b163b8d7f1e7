//! Layered tile maps.
//!
//! A [`Layer`] is a dense grid of optional tiles, stored row by row. A
//! [`TileMap`] is an ordered list of layers that share one width and height.
//! Both keep their fields private, and every value their functions hand out
//! is well formed: a layer has `width * height` cells, and a tile stored in
//! a layer sits at the cell its own index names.

use vstd::prelude::*;

use crate::tile::{Tile, TileView};

verus! {

/// The view of one cell.
pub open spec fn cell_view(cell: Option<Tile>) -> Option<TileView> {
    match cell {
        Some(tile) => Some(tile@),
        None => None,
    }
}

/// What a [`Layer`] is, mathematically: its dimensions and its cells in
/// row-major order.
pub struct LayerView {
    pub width: nat,
    pub height: nat,
    pub cells: Seq<Option<TileView>>,
}

impl LayerView {
    /// The cell in column `x` of row `y`.
    pub open spec fn cell(self, x: int, y: int) -> Option<TileView> {
        self.cells[y * self.width + x]
    }

    /// A layer is well formed when it has one cell per grid position and
    /// every tile in it sits at the cell that the tile's index names.
    pub open spec fn wf(self) -> bool {
        &&& self.cells.len() == self.width * self.height
        &&& forall|x: int, y: int|
            0 <= x < self.width && 0 <= y < self.height ==> (#[trigger] self.cell(x, y) matches Some(
                tile,
            ) ==> tile.index.x == x && tile.index.y == y)
    }
}

/// One grid plane of optional tiles.
#[derive(Clone, Debug, PartialEq, Eq)]
pub struct Layer {
    width: u32,
    height: u32,
    cells: Vec<Option<Tile>>,
}

impl View for Layer {
    type V = LayerView;

    closed spec fn view(&self) -> LayerView {
        LayerView {
            width: self.width as nat,
            height: self.height as nat,
            cells: self.cells@.map_values(|cell: Option<Tile>| cell_view(cell)),
        }
    }
}

/// Column `x` of row `y` has a row-major position of its own among the
/// `width * height` cells of a grid.
pub proof fn lemma_cell_in_range(x: int, y: int, width: int, height: int)
    requires
        0 <= x < width,
        0 <= y < height,
    ensures
        0 <= y * width + x < width * height,
{
    assert(y * width <= (height - 1) * width) by (nonlinear_arith)
        requires
            0 <= y <= height - 1,
            0 <= width,
    ;
    assert((height - 1) * width + width == width * height) by (nonlinear_arith);
    assert(0 <= y * width) by (nonlinear_arith)
        requires
            0 <= y,
            0 <= width,
    ;
}

/// A row-major position names one column and one row only.
proof fn lemma_cell_unique(x1: int, y1: int, x2: int, y2: int, width: int)
    requires
        0 <= x1 < width,
        0 <= x2 < width,
        0 <= y1,
        0 <= y2,
        y1 * width + x1 == y2 * width + x2,
    ensures
        x1 == x2,
        y1 == y2,
{
    if y1 < y2 {
        assert((y1 + 1) * width <= y2 * width) by (nonlinear_arith)
            requires
                y1 + 1 <= y2,
                0 <= width,
        ;
        assert((y1 + 1) * width == y1 * width + width) by (nonlinear_arith);
    } else if y2 < y1 {
        assert((y2 + 1) * width <= y1 * width) by (nonlinear_arith)
            requires
                y2 + 1 <= y1,
                0 <= width,
        ;
        assert((y2 + 1) * width == y2 * width + width) by (nonlinear_arith);
    }
}

impl Layer {
    /// An empty layer of the given dimensions, or `None` when that many
    /// cells cannot be addressed on this machine.
    pub fn new(width: u32, height: u32) -> (made: Option<Layer>)
        ensures
            made is Some <==> width * height <= usize::MAX,
            made matches Some(layer) ==> {
                &&& layer@.width == width
                &&& layer@.height == height
                &&& layer@.cells == Seq::new((width * height) as nat, |i: int| None::<TileView>)
                &&& layer@.wf()
            },
    {
        let wide: u64 = width as u64;
        let high: u64 = height as u64;
        assert(wide * high <= 0xffff_ffff * 0xffff_ffff) by (nonlinear_arith)
            requires
                0 <= wide <= 0xffff_ffff,
                0 <= high <= 0xffff_ffff,
        ;
        let count: u64 = wide * high;
        if count > usize::MAX as u64 {
            return None;
        }
        let mut cells: Vec<Option<Tile>> = Vec::new();
        let mut i: u64 = 0;
        while i < count
            invariant
                i <= count,
                cells@.len() == i,
                forall|j: int| 0 <= j < i ==> (#[trigger] cells@[j]) is None,
            decreases count - i,
        {
            cells.push(None);
            i += 1;
        }
        let layer = Layer { width, height, cells };
        proof {
            assert(layer@.cells =~= Seq::new((width * height) as nat, |i: int| None::<TileView>));
            assert forall|x: int, y: int| 0 <= x < width && 0 <= y < height implies (
            #[trigger] layer@.cell(x, y)) is None by {
                lemma_cell_in_range(x, y, width as int, height as int);
            }
        }
        Some(layer)
    }

    /// The number of columns.
    pub fn width(&self) -> (w: u32)
        ensures
            w == self@.width,
    {
        self.width
    }

    /// The number of rows.
    pub fn height(&self) -> (h: u32)
        ensures
            h == self@.height,
    {
        self.height
    }

    /// Stores `tile` at the cell its index names, replacing what was there.
    /// A tile whose index lies outside the grid is dropped and the layer
    /// stays as it was.
    pub fn put(&mut self, tile: Tile) -> (placed: bool)
        requires
            old(self)@.wf(),
        ensures
            placed == (tile.index.x < old(self)@.width && tile.index.y < old(self)@.height),
            placed ==> final(self)@ == (LayerView {
                cells: old(self)@.cells.update(
                    tile.index.y * old(self)@.width + tile.index.x,
                    Some(tile@),
                ),
                ..old(self)@
            }),
            !placed ==> final(self)@ == old(self)@,
            final(self)@.wf(),
    {
        if tile.index.x >= self.width || tile.index.y >= self.height {
            return false;
        }
        let ghost before = self@;
        let ghost x = tile.index.x as int;
        let ghost y = tile.index.y as int;
        let ghost width = self.width as int;
        let ghost tile_view = tile@;
        let row: usize = tile.index.y as usize;
        let col: usize = tile.index.x as usize;
        let stride: usize = self.width as usize;
        let count: usize = self.cells.len();
        proof {
            lemma_cell_in_range(col as int, row as int, stride as int, self.height as int);
            assert(self@.cells.len() == count);
            assert(row * stride + col < count);
        }
        let at: usize = row * stride + col;
        self.cells.set(at, Some(tile));
        proof {
            assert(self@.cells =~= before.cells.update(y * width + x, Some(tile_view)));
            assert forall|cx: int, cy: int|
                0 <= cx < self@.width && 0 <= cy < self@.height implies (#[trigger] self@.cell(
                cx,
                cy,
            ) matches Some(t) ==> t.index.x == cx && t.index.y == cy) by {
                lemma_cell_in_range(cx, cy, width, self.height as int);
                if cy * width + cx == y * width + x {
                    lemma_cell_unique(cx, cy, x, y, width);
                } else {
                    assert(self@.cell(cx, cy) == before.cell(cx, cy));
                }
            }
        }
        true
    }

    /// The cell in row `row`, column `col`.
    pub fn get(&self, row: u32, col: u32) -> (cell: &Option<Tile>)
        requires
            self@.wf(),
            row < self@.height,
            col < self@.width,
        ensures
            cell_view(*cell) == self@.cell(col as int, row as int),
    {
        let r: usize = row as usize;
        let c: usize = col as usize;
        let stride: usize = self.width as usize;
        let count: usize = self.cells.len();
        proof {
            lemma_cell_in_range(c as int, r as int, stride as int, self.height as int);
            assert(self@.cells.len() == count);
            assert(r * stride + c < count);
        }
        let at: usize = r * stride + c;
        &self.cells[at]
    }
}

/// What a [`TileMap`] is, mathematically.
pub struct TileMapView {
    pub width: nat,
    pub height: nat,
    pub layers: Seq<LayerView>,
}

impl TileMapView {
    /// A map is well formed when each of its layers is, and each has the
    /// map's own dimensions.
    pub open spec fn wf(self) -> bool {
        forall|i: int|
            0 <= i < self.layers.len() ==> {
                &&& (#[trigger] self.layers[i]).wf()
                &&& self.layers[i].width == self.width
                &&& self.layers[i].height == self.height
            }
    }
}

/// An ordered list of layers that share one width and height.
#[derive(Clone, Debug, PartialEq, Eq)]
pub struct TileMap {
    width: u32,
    height: u32,
    layers: Vec<Layer>,
}

impl View for TileMap {
    type V = TileMapView;

    closed spec fn view(&self) -> TileMapView {
        TileMapView {
            width: self.width as nat,
            height: self.height as nat,
            layers: self.layers@.map_values(|layer: Layer| layer@),
        }
    }
}

impl TileMap {
    /// A map of the given dimensions with no layers.
    pub fn new(width: u32, height: u32) -> (map: TileMap)
        ensures
            map@ == (TileMapView { width: width as nat, height: height as nat, layers: Seq::empty() }),
            map@.wf(),
    {
        let map = TileMap { width, height, layers: Vec::new() };
        assert(map@.layers =~= Seq::empty());
        map
    }

    /// The number of columns of every layer.
    pub fn width(&self) -> (w: u32)
        ensures
            w == self@.width,
    {
        self.width
    }

    /// The number of rows of every layer.
    pub fn height(&self) -> (h: u32)
        ensures
            h == self@.height,
    {
        self.height
    }

    /// The number of layers.
    pub fn layer_count(&self) -> (n: usize)
        ensures
            n == self@.layers.len(),
    {
        self.layers.len()
    }

    /// Adds `layer` on top of the others. A layer whose dimensions differ
    /// from the map's is dropped and the map stays as it was.
    pub fn push_layer(&mut self, layer: Layer) -> (added: bool)
        requires
            old(self)@.wf(),
            layer@.wf(),
        ensures
            added == (layer@.width == old(self)@.width && layer@.height == old(self)@.height),
            added ==> final(self)@ == (TileMapView {
                layers: old(self)@.layers.push(layer@),
                ..old(self)@
            }),
            !added ==> final(self)@ == old(self)@,
            final(self)@.wf(),
    {
        if layer.width() != self.width || layer.height() != self.height {
            return false;
        }
        let ghost before = self@;
        let ghost pushed = layer@;
        self.layers.push(layer);
        proof {
            assert(self@.layers =~= before.layers.push(pushed));
        }
        true
    }

    /// The layer at position `i`, counted from the bottom.
    pub fn layer(&self, i: usize) -> (layer: &Layer)
        requires
            i < self@.layers.len(),
        ensures
            layer@ == self@.layers[i as int],
    {
        &self.layers[i]
    }
}

} // verus!
