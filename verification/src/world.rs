//! World state and the instantiation step that turns a pending map into a
//! scene.
//!
//! The world holds the active map, an optional reference to a map that
//! waits to be instantiated, and a frame counter. The instantiation step is
//! polled once per frame, before anything else looks at the scene: it does
//! nothing until a map is pending and resolved, and then it consumes the
//! reference, so that one pending map is instantiated once.

use vstd::prelude::*;

use crate::grid::{lemma_cell_in_range, TileMap, TileMapView};
use crate::scene::{
    cells_objects, layers_objects, lemma_cells_objects_push, lemma_layers_objects_push,
    map_objects, object_views, spawn_furniture, spawn_objects, SceneObject, SceneObjectView,
};

verus! {

/// The frame counter refreshes the frame-rate text once in this many frames.
pub const REFRESH_PERIOD: u64 = 100;

/// What one instantiation step asks of the scene: first remove every object
/// in `removed`, each with its descendants, then create the objects in
/// `created`, in order.
#[derive(Clone, Debug, PartialEq, Eq)]
pub struct Instantiation {
    pub removed: Vec<u64>,
    pub created: Vec<SceneObject>,
}

/// What an [`Instantiation`] is, mathematically.
pub struct InstantiationView {
    pub removed: Seq<u64>,
    pub created: Seq<SceneObjectView>,
}

impl View for Instantiation {
    type V = InstantiationView;

    open spec fn view(&self) -> InstantiationView {
        InstantiationView { removed: self.removed@, created: object_views(self.created@) }
    }
}

/// The step that leaves the scene as it is.
pub open spec fn no_change() -> InstantiationView {
    InstantiationView { removed: Seq::empty(), created: Seq::empty() }
}

/// The state of the world between frames. `H` is whatever the caller uses
/// to refer to a map that is still loading.
#[derive(Clone, Debug, PartialEq, Eq)]
pub struct WorldState<H> {
    /// The active map.
    pub map: TileMap,
    /// The map that waits to be instantiated, if any.
    pub map_handle: Option<H>,
    /// Frames counted so far.
    pub updates: u64,
}

impl<H> WorldState<H> {
    /// The world is well formed when its active map is.
    pub open spec fn wf(self) -> bool {
        self.map@.wf()
    }

    /// Whether a step instantiates: a map is pending and it has resolved.
    pub open spec fn due(self, resolved: Option<TileMap>) -> bool {
        self.map_handle is Some && resolved is Some
    }

    /// The world after one instantiation step that found `resolved`.
    pub open spec fn after_load(self, resolved: Option<TileMap>) -> WorldState<H> {
        if self.due(resolved) {
            WorldState { map: resolved->0, map_handle: None, updates: self.updates }
        } else {
            self
        }
    }

    /// What one instantiation step that found `resolved` asks of a scene
    /// whose pipeline-owned objects are `owned`.
    pub open spec fn load_result(
        self,
        resolved: Option<TileMap>,
        owned: Seq<u64>,
    ) -> InstantiationView {
        if self.due(resolved) {
            InstantiationView { removed: owned, created: map_objects(resolved->0@) }
        } else {
            no_change()
        }
    }

    /// The world after one more frame was counted.
    pub open spec fn after_tick(self) -> WorldState<H> {
        WorldState { map: self.map, map_handle: self.map_handle, updates: (self.updates + 1) as u64 }
    }

    /// A world with an empty map, nothing pending and no frame counted.
    pub fn new() -> (world: WorldState<H>)
        ensures
            world.map@ == (TileMapView { width: 0, height: 0, layers: Seq::empty() }),
            world.map_handle is None,
            world.updates == 0,
            world.wf(),
    {
        WorldState { map: TileMap::new(0, 0), map_handle: None, updates: 0 }
    }

    /// Makes `handle` the pending map reference. A reference that was
    /// still pending is dropped: at most one is outstanding.
    pub fn request_map(&mut self, handle: H)
        ensures
            *final(self) == (WorldState { map_handle: Some(handle), ..*old(self) }),
    {
        self.map_handle = Some(handle);
    }

    /// One instantiation step.
    ///
    /// `resolved` is the pending map if it has finished loading, and
    /// `owned` lists the scene objects that earlier steps created. When no
    /// map is pending, or the pending one has not resolved, nothing
    /// happens. Otherwise the resolved map becomes the active one, the
    /// pending reference is cleared, every owned object is to be removed,
    /// and the objects of the new map are to be created.
    pub fn load_map(&mut self, resolved: Option<TileMap>, owned: Vec<u64>) -> (step: Instantiation)
        requires
            resolved matches Some(map) ==> map@.wf(),
        ensures
            *final(self) == old(self).after_load(resolved),
            step@ == old(self).load_result(resolved, owned@),
            old(self).wf() ==> final(self).wf(),
    {
        if self.map_handle.is_none() {
            let step = Instantiation { removed: Vec::new(), created: Vec::new() };
            assert(step@.created =~= Seq::empty());
            return step;
        }
        let map = match resolved {
            Some(map) => map,
            None => {
                let step = Instantiation { removed: Vec::new(), created: Vec::new() };
                assert(step@.created =~= Seq::empty());
                return step;
            },
        };
        let created = instantiate(&map);
        self.map = map;
        self.map_handle = None;
        Instantiation { removed: owned, created }
    }

    /// Counts one frame and says whether the frame-rate text is to be
    /// refreshed: on every frame whose count is a multiple of
    /// [`REFRESH_PERIOD`].
    pub fn tick(&mut self) -> (refresh: bool)
        requires
            old(self).updates < u64::MAX,
        ensures
            *final(self) == old(self).after_tick(),
            final(self).updates == old(self).updates + 1,
            refresh == (final(self).updates % REFRESH_PERIOD == 0),
    {
        self.updates = self.updates + 1;
        self.updates % REFRESH_PERIOD == 0
    }
}

/// Polling is idle while nothing is pending: a step on a world without a
/// pending map reference leaves the world as it was and asks nothing of the
/// scene, whatever map is offered and whatever the scene holds.
pub proof fn lemma_idle_poll<H>(world: WorldState<H>, resolved: Option<TileMap>, owned: Seq<u64>)
    requires
        world.map_handle is None,
    ensures
        world.after_load(resolved) == world,
        world.load_result(resolved, owned) == no_change(),
{
}

/// A pending reference that has not resolved is kept: the step leaves the
/// world as it was and asks nothing of the scene.
pub proof fn lemma_unresolved_poll<H>(world: WorldState<H>, owned: Seq<u64>)
    ensures
        world.after_load(None) == world,
        world.load_result(None, owned) == no_change(),
{
}

/// A pending map is consumed exactly once. The step that finds it resolved
/// creates the objects of that map, makes it the active map and clears the
/// reference; every step after that, until a new reference is set, leaves
/// the world as it is and asks nothing of the scene.
pub proof fn lemma_consumed_once<H>(
    world: WorldState<H>,
    map: TileMap,
    owned: Seq<u64>,
    later: Option<TileMap>,
    later_owned: Seq<u64>,
)
    requires
        world.map_handle is Some,
    ensures
        world.load_result(Some(map), owned).removed == owned,
        world.load_result(Some(map), owned).created == map_objects(map@),
        world.after_load(Some(map)).map == map,
        world.after_load(Some(map)).map_handle is None,
        world.after_load(Some(map)).after_load(later) == world.after_load(Some(map)),
        world.after_load(Some(map)).load_result(later, later_owned) == no_change(),
{
}

/// Counting a frame touches neither the map nor the pending reference, so
/// it never causes or prevents an instantiation.
pub proof fn lemma_tick_keeps_pending<H>(world: WorldState<H>, resolved: Option<TileMap>)
    ensures
        world.after_tick().map == world.map,
        world.after_tick().map_handle == world.map_handle,
        world.after_tick().due(resolved) == world.due(resolved),
{
}

/// Every scene object of `map`: those of its tiles, layer by layer and in
/// row-major order within a layer, then the floor and the ceiling.
pub fn instantiate(map: &TileMap) -> (created: Vec<SceneObject>)
    requires
        map@.wf(),
    ensures
        object_views(created@) == map_objects(map@),
{
    let width: u32 = map.width();
    let height: u32 = map.height();
    let layer_count: usize = map.layer_count();
    let mut created: Vec<SceneObject> = Vec::new();
    let mut l: usize = 0;
    assert(map@.layers.take(0) =~= Seq::empty());
    assert(object_views(created@) =~= Seq::empty());
    while l < layer_count
        invariant
            map@.wf(),
            width == map@.width,
            height == map@.height,
            layer_count == map@.layers.len(),
            l <= layer_count,
            object_views(created@) == layers_objects(map@.layers.take(l as int)),
        decreases layer_count - l,
    {
        let layer = map.layer(l);
        let ghost below = layers_objects(map@.layers.take(l as int));
        let ghost cells = layer@.cells;
        assert(layer@.wf() && layer@.width == width && layer@.height == height);
        assert(cells.take(0) =~= Seq::empty());
        assert(object_views(created@) =~= below + cells_objects(cells.take(0)));
        let mut y: u32 = 0;
        while y < height
            invariant
                layer@.wf(),
                layer@.width == width,
                layer@.height == height,
                cells == layer@.cells,
                y <= height,
                y * width <= cells.len(),
                object_views(created@) == below + cells_objects(cells.take(y * width)),
            decreases height - y,
        {
            let mut x: u32 = 0;
            while x < width
                invariant
                    layer@.wf(),
                    layer@.width == width,
                    layer@.height == height,
                    cells == layer@.cells,
                    y < height,
                    x <= width,
                    y * width + x <= cells.len(),
                    object_views(created@) == below + cells_objects(cells.take(y * width + x)),
                decreases width - x,
            {
                let ghost at = y * width + x;
                proof {
                    lemma_cell_in_range(x as int, y as int, width as int, height as int);
                    assert(cells.take(at + 1) =~= cells.take(at).push(cells[at]));
                    lemma_cells_objects_push(cells.take(at), cells[at]);
                }
                match layer.get(y, x) {
                    Some(tile) => {
                        let mut objects = spawn_objects(tile);
                        let ghost before = created@;
                        let ghost added = objects@;
                        created.append(&mut objects);
                        assert(object_views(created@) =~= object_views(before) + object_views(
                            added,
                        ));
                    },
                    None => {},
                }
                x += 1;
            }
            proof {
                assert(y * width + width == (y + 1) * width) by (nonlinear_arith);
            }
            y += 1;
        }
        proof {
            assert(cells.take(height * width) =~= cells) by {
                assert(height * width == width * height) by (nonlinear_arith);
            }
            assert(map@.layers.take(l + 1) =~= map@.layers.take(l as int).push(layer@));
            lemma_layers_objects_push(map@.layers.take(l as int), layer@);
        }
        l += 1;
    }
    assert(map@.layers.take(l as int) =~= map@.layers);
    let mut furniture = spawn_furniture(width, height);
    let ghost before = created@;
    let ghost added = furniture@;
    created.append(&mut furniture);
    assert(object_views(created@) =~= object_views(before) + object_views(added));
    created
}

} // verus!
