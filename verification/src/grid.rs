//! Grid positions, grid boundaries and a spatial index of entities.

use crate::cell_map::CellMap;
use crate::coords::{point, Point};
use crate::life::{in_grid, wrap, BoundaryPolicy};
use vstd::prelude::*;
use vstd::std_specs::convert::FromSpecImpl;

verus! {

/// A position on the grid.
#[derive(Debug, Clone, Copy, PartialEq, Eq, Hash, Structural)]
pub struct GridPosition {
    pub x: i32,
    pub y: i32,
}

/// The eight offsets of the positions around a position, row by row.
pub open spec fn neighbor_offsets() -> Seq<(i32, i32)> {
    seq![
        (-1i32, -1i32),
        (0i32, -1i32),
        (1i32, -1i32),
        (-1i32, 0i32),
        (1i32, 0i32),
        (-1i32, 1i32),
        (0i32, 1i32),
        (1i32, 1i32),
    ]
}

/// The distance between two numbers.
pub open spec fn gap(a: int, b: int) -> int {
    if a >= b {
        a - b
    } else {
        b - a
    }
}

impl GridPosition {
    /// The position `(x, y)`.
    pub fn new(x: i32, y: i32) -> (p: GridPosition)
        ensures
            p == (GridPosition { x, y }),
    {
        GridPosition { x, y }
    }

    /// The position of a pair of coordinates.
    pub fn from_tuple(pos: (i32, i32)) -> (p: GridPosition)
        ensures
            p == (GridPosition { x: pos.0, y: pos.1 }),
    {
        GridPosition { x: pos.0, y: pos.1 }
    }

    /// The pair of coordinates of the position.
    pub fn to_tuple(self) -> (pos: (i32, i32))
        ensures
            pos == (self.x, self.y),
    {
        (self.x, self.y)
    }

    /// The eight positions around this one, row by row.
    pub open spec fn neighbor_positions(self) -> Seq<GridPosition> {
        Seq::new(
            8,
            |i: int|
                GridPosition {
                    x: (self.x + neighbor_offsets()[i].0) as i32,
                    y: (self.y + neighbor_offsets()[i].1) as i32,
                },
        )
    }

    /// The eight positions around this one, row by row.
    pub fn get_neighbor_positions(&self) -> (around: Vec<GridPosition>)
        requires
            i32::MIN < self.x < i32::MAX,
            i32::MIN < self.y < i32::MAX,
        ensures
            around@ == self.neighbor_positions(),
    {
        let around = vec![
            GridPosition::new(self.x - 1, self.y - 1),
            GridPosition::new(self.x, self.y - 1),
            GridPosition::new(self.x + 1, self.y - 1),
            GridPosition::new(self.x - 1, self.y),
            GridPosition::new(self.x + 1, self.y),
            GridPosition::new(self.x - 1, self.y + 1),
            GridPosition::new(self.x, self.y + 1),
            GridPosition::new(self.x + 1, self.y + 1),
        ];
        assert(around@ =~= self.neighbor_positions());
        around
    }

    /// The eight offsets of the positions around a position, row by row.
    pub fn get_neighbor_offsets() -> (offsets: [(i32, i32); 8])
        ensures
            offsets@ == neighbor_offsets(),
    {
        let offsets = [(-1i32, -1i32), (0, -1), (1, -1), (-1, 0), (1, 0), (-1, 1), (0, 1), (1, 1)];
        assert(offsets@ =~= neighbor_offsets());
        offsets
    }

    /// The number of steps along the axes from this position to `other`.
    pub fn manhattan_distance_to(&self, other: &GridPosition) -> (distance: u32)
        requires
            gap(self.x as int, other.x as int) + gap(self.y as int, other.y as int) <= i32::MAX,
        ensures
            distance == gap(self.x as int, other.x as int) + gap(self.y as int, other.y as int),
    {
        let dx: i64 = self.x as i64 - other.x as i64;
        let dy: i64 = self.y as i64 - other.y as i64;
        let ax: i64 = if dx < 0 {
            -dx
        } else {
            dx
        };
        let ay: i64 = if dy < 0 {
            -dy
        } else {
            dy
        };
        (ax + ay) as u32
    }
}

impl From<(i32, i32)> for GridPosition {
    fn from(pos: (i32, i32)) -> (p: GridPosition) {
        GridPosition::new(pos.0, pos.1)
    }
}

impl FromSpecImpl<(i32, i32)> for GridPosition {
    open spec fn obeys_from_spec() -> bool {
        true
    }

    open spec fn from_spec(pos: (i32, i32)) -> GridPosition {
        GridPosition { x: pos.0, y: pos.1 }
    }
}

impl From<GridPosition> for (i32, i32) {
    fn from(pos: GridPosition) -> (pair: (i32, i32)) {
        (pos.x, pos.y)
    }
}

impl FromSpecImpl<GridPosition> for (i32, i32) {
    open spec fn obeys_from_spec() -> bool {
        true
    }

    open spec fn from_spec(pos: GridPosition) -> (i32, i32) {
        (pos.x, pos.y)
    }
}

/// The extent of a grid and what happens at its edges.
#[derive(Debug, Clone, PartialEq)]
pub struct GridBoundary {
    pub width: i32,
    pub height: i32,
    pub wrap_edges: bool,
}

/// `v` moved into `[low, high]`: `high` wins where the interval is empty.
pub open spec fn clamped(v: int, low: int, high: int) -> int {
    if v < low {
        if low < high {
            low
        } else {
            high
        }
    } else if v < high {
        v
    } else {
        high
    }
}

impl GridBoundary {
    /// The boundary policy that this boundary stands for.
    pub open spec fn policy_spec(&self) -> BoundaryPolicy {
        BoundaryPolicy::Bounded { width: self.width, height: self.height, wrap: self.wrap_edges }
    }

    /// The boundary policy that this boundary stands for.
    #[verifier::when_used_as_spec(policy_spec)]
    pub fn policy(&self) -> (p: BoundaryPolicy)
        ensures
            p == self.policy_spec(),
    {
        BoundaryPolicy::Bounded { width: self.width, height: self.height, wrap: self.wrap_edges }
    }

    /// A boundary of the given extent.
    pub fn new(width: i32, height: i32, wrap_edges: bool) -> (b: GridBoundary)
        ensures
            b.width == width,
            b.height == height,
            b.wrap_edges == wrap_edges,
    {
        GridBoundary { width, height, wrap_edges }
    }

    /// The widest boundary: every position with coordinates from zero up to
    /// the greatest but one, without wrapping.
    pub fn infinite() -> (b: GridBoundary)
        ensures
            b.width == i32::MAX,
            b.height == i32::MAX,
            !b.wrap_edges,
    {
        GridBoundary { width: i32::MAX, height: i32::MAX, wrap_edges: false }
    }

    /// Whether `pos` is a position of the grid: every position is one of a
    /// wrapping grid.
    pub fn is_valid_position(&self, pos: &GridPosition) -> (valid: bool)
        ensures
            valid == (self.wrap_edges || in_grid(
                (pos.x as int, pos.y as int),
                self.width as int,
                self.height as int,
            )),
    {
        if self.wrap_edges {
            true
        } else {
            pos.x >= 0 && pos.x < self.width && pos.y >= 0 && pos.y < self.height
        }
    }

    /// The position on which `pos` lands: `pos` itself without wrapping,
    /// and with wrapping the position with each coordinate taken modulo the
    /// matching dimension.
    pub fn wrap_position(&self, pos: &GridPosition) -> (landing: GridPosition)
        requires
            self.wrap_edges ==> self.width > 0 && self.height > 0,
        ensures
            landing == if self.wrap_edges {
                GridPosition {
                    x: wrap(pos.x as int, self.width as int) as i32,
                    y: wrap(pos.y as int, self.height as int) as i32,
                }
            } else {
                *pos
            },
    {
        if !self.wrap_edges {
            return *pos;
        }
        let (x, y) = crate::engine::wrap_coordinate((pos.x, pos.y), self);
        GridPosition::new(x, y)
    }

    /// The position of the grid that is nearest to `pos`.
    pub fn clamp_position(&self, pos: &GridPosition) -> (nearest: GridPosition)
        requires
            self.width > i32::MIN,
            self.height > i32::MIN,
        ensures
            nearest.x == clamped(pos.x as int, 0, self.width - 1),
            nearest.y == clamped(pos.y as int, 0, self.height - 1),
    {
        GridPosition::new(
            clamp_coordinate(pos.x, self.width - 1),
            clamp_coordinate(pos.y, self.height - 1),
        )
    }
}

/// `v` moved into `[0, high]`.
fn clamp_coordinate(v: i32, high: i32) -> (c: i32)
    ensures
        c == clamped(v as int, 0, high as int),
{
    let raised = if v < 0 {
        0
    } else {
        v
    };
    if raised < high {
        raised
    } else {
        high
    }
}

impl Default for GridBoundary {
    fn default() -> (b: GridBoundary)
        ensures
            b.width == 100,
            b.height == 100,
            !b.wrap_edges,
    {
        GridBoundary::new(100, 100, false)
    }
}

/// The handle of an entity.
pub type Entity = u64;

/// An index from cells to the entities that stand on them.
pub struct SpatialGrid {
    pub cells: CellMap<Entity>,
    pub chunk_size: i32,
}

/// The entities among the given positions, in the positions' order.
pub open spec fn entities_at(cells: Map<Point, Entity>, positions: Seq<Point>) -> Seq<Entity>
    decreases positions.len(),
{
    if positions.len() == 0 {
        Seq::empty()
    } else if cells.contains_key(positions.last()) {
        entities_at(cells, positions.drop_last()).push(cells[positions.last()])
    } else {
        entities_at(cells, positions.drop_last())
    }
}

/// The eight positions around `c`, row by row.
pub open spec fn around(c: Point) -> Seq<Point> {
    Seq::new(8, |i: int| (c.0 + neighbor_offsets()[i].0, c.1 + neighbor_offsets()[i].1))
}

/// The position `c` and the four positions next to it along the axes.
pub open spec fn plus_shape(c: Point) -> Seq<Point> {
    seq![(c.0, c.1 - 1), (c.0 - 1, c.1), c, (c.0 + 1, c.1), (c.0, c.1 + 1)]
}

impl SpatialGrid {
    /// An empty index with chunks of thirty-two cells a side.
    pub fn new() -> (grid: SpatialGrid)
        ensures
            grid.cells@ == Map::<Point, Entity>::empty(),
            grid.chunk_size == 32,
    {
        SpatialGrid { cells: CellMap::new(), chunk_size: 32 }
    }

    /// An empty index with chunks of the given size.
    pub fn new_with_chunk_size(chunk_size: i32) -> (grid: SpatialGrid)
        ensures
            grid.cells@ == Map::<Point, Entity>::empty(),
            grid.chunk_size == chunk_size,
    {
        SpatialGrid { cells: CellMap::new(), chunk_size }
    }

    /// Puts `entity` on `position`, in place of what stood there.
    pub fn insert(&mut self, position: (i32, i32), entity: Entity)
        ensures
            final(self).cells@ == old(self).cells@.insert(point(position), entity),
            final(self).chunk_size == old(self).chunk_size,
    {
        self.cells.insert(position, entity);
    }

    /// Takes the entity off `position`, if one stands there.
    pub fn remove(&mut self, position: &(i32, i32)) -> (entity: Option<Entity>)
        ensures
            final(self).cells@ == old(self).cells@.remove(point(*position)),
            final(self).chunk_size == old(self).chunk_size,
            entity == if old(self).cells@.contains_key(point(*position)) {
                Some(old(self).cells@[point(*position)])
            } else {
                None
            },
    {
        self.cells.remove(*position)
    }

    /// The entity on `position`, if one stands there.
    pub fn get(&self, position: &(i32, i32)) -> (entity: Option<Entity>)
        ensures
            entity == if self.cells@.contains_key(point(*position)) {
                Some(self.cells@[point(*position)])
            } else {
                None
            },
    {
        match self.cells.get(*position) {
            Some(entity) => Some(*entity),
            None => None,
        }
    }

    /// Whether an entity stands on `position`.
    pub fn contains(&self, position: &(i32, i32)) -> (found: bool)
        ensures
            found == self.cells@.contains_key(point(*position)),
    {
        self.cells.contains_key(*position)
    }

    /// The entity on the position `(x, y)`, if the position is
    /// representable and an entity stands there.
    fn entity_at(&self, x: i64, y: i64) -> (entity: Option<Entity>)
        ensures
            entity == if self.cells@.contains_key((x as int, y as int)) {
                Some(self.cells@[(x as int, y as int)])
            } else {
                None
            },
    {
        proof {
            self.cells.lemma_domain_in_range();
        }
        if x >= -0x8000_0000 && x <= 0x7fff_ffff && y >= -0x8000_0000 && y <= 0x7fff_ffff {
            self.get(&(x as i32, y as i32))
        } else {
            None
        }
    }

    /// The entities on the eight positions around `position`, row by row.
    pub fn get_neighbors(&self, position: (i32, i32)) -> (neighbors: Vec<Entity>)
        ensures
            neighbors@ == entities_at(self.cells@, around(point(position))),
    {
        let offsets = GridPosition::get_neighbor_offsets();
        let mut neighbors: Vec<Entity> = Vec::new();
        let mut i: usize = 0;
        let ghost places = around(point(position));
        proof {
            assert(places.take(0) =~= Seq::<Point>::empty());
        }
        while i < 8
            invariant
                i <= 8,
                offsets@ == neighbor_offsets(),
                places == around(point(position)),
                neighbors@ == entities_at(self.cells@, places.take(i as int)),
            decreases 8 - i,
        {
            let (dx, dy) = offsets[i];
            proof {
                assert(places.take(i + 1).drop_last() =~= places.take(i as int));
                assert(places.take(i + 1).last() == places[i as int]);
            }
            if let Some(entity) = self.entity_at(position.0 as i64 + dx as i64, position.1 as i64
                + dy as i64) {
                neighbors.push(entity);
            }
            i += 1;
        }
        proof {
            assert(places.take(8) =~= places);
        }
        neighbors
    }

    /// The entities on `position` and on the four positions next to it
    /// along the axes: above, left, the position itself, right, below.
    pub fn get_neighbors_in_chunk(&self, position: (i32, i32)) -> (neighbors: Vec<Entity>)
        ensures
            neighbors@ == entities_at(self.cells@, plus_shape(point(position))),
    {
        let x = position.0 as i64;
        let y = position.1 as i64;
        let mut neighbors: Vec<Entity> = Vec::new();
        let ghost places = plus_shape(point(position));
        proof {
            reveal_with_fuel(entities_at, 6);
            assert(places.drop_last() =~= seq![(x as int, y - 1), (x - 1, y as int), (x as int, y as int), (x + 1, y as int)]);
            assert(places.drop_last().drop_last() =~= seq![(x as int, y - 1), (x - 1, y as int), (x as int, y as int)]);
            assert(places.drop_last().drop_last().drop_last() =~= seq![(x as int, y - 1), (x - 1, y as int)]);
            assert(places.drop_last().drop_last().drop_last().drop_last() =~= seq![(x as int, y - 1)]);
            assert(places.drop_last().drop_last().drop_last().drop_last().drop_last() =~= Seq::<Point>::empty());
        }
        if let Some(entity) = self.entity_at(x, y - 1) {
            neighbors.push(entity);
        }
        if let Some(entity) = self.entity_at(x - 1, y) {
            neighbors.push(entity);
        }
        if let Some(entity) = self.entity_at(x, y) {
            neighbors.push(entity);
        }
        if let Some(entity) = self.entity_at(x + 1, y) {
            neighbors.push(entity);
        }
        if let Some(entity) = self.entity_at(x, y + 1) {
            neighbors.push(entity);
        }
        neighbors
    }

    /// Takes every entity off the grid.
    pub fn clear(&mut self)
        ensures
            final(self).cells@ == Map::<Point, Entity>::empty(),
            final(self).chunk_size == old(self).chunk_size,
    {
        self.cells.clear();
    }

    /// The number of positions on which an entity stands.
    pub fn len(&self) -> (n: usize)
        ensures
            self.cells@.dom().finite(),
            n == self.cells@.dom().len(),
    {
        self.cells.len()
    }

    /// Whether no entity stands on the grid.
    pub fn is_empty(&self) -> (empty: bool)
        ensures
            empty == (self.cells@.dom() == Set::<Point>::empty()),
    {
        self.cells.is_empty()
    }

    /// The entities on the grid, one for each position on which one stands,
    /// in no particular order.
    pub fn entities(&self) -> (entities: Vec<Entity>)
        ensures
            self.cells@.dom().finite(),
            entities@.len() == self.cells@.dom().len(),
            forall|i: int|
                0 <= i < entities@.len() ==> self.cells@.contains_value(#[trigger] entities@[i]),
            forall|c: Point| #[trigger]
                self.cells@.contains_key(c) ==> entities@.contains(self.cells@[c]),
    {
        let positions = self.cells.cells();
        let mut entities: Vec<Entity> = Vec::new();
        let mut i: usize = 0;
        proof {
            crate::cell_set::lemma_listing_len(positions@);
        }
        while i < positions.len()
            invariant
                i <= positions.len(),
                crate::cell_set::cells_of(positions@) == self.cells@.dom(),
                entities@.len() == i,
                forall|j: int|
                    0 <= j < i ==> self.cells@.contains_key(point(positions@[j])) && (
                    #[trigger] entities@[j]) == self.cells@[point(positions@[j])],
            decreases positions.len() - i,
        {
            proof {
                assert(crate::cell_set::cells_of(positions@).contains(point(positions@[i as int])));
            }
            match self.get(&positions[i]) {
                Some(entity) => {
                    entities.push(entity);
                },
                None => {},
            }
            i += 1;
        }
        proof {
            assert forall|i: int| 0 <= i < entities@.len() implies self.cells@.contains_value(
                #[trigger] entities@[i],
            ) by {
                assert(self.cells@.dom().contains(point(positions@[i])));
            }
            assert forall|c: Point| #[trigger] self.cells@.contains_key(c) implies entities@.contains(
                self.cells@[c],
            ) by {
                let j = choose|j: int|
                    0 <= j < positions@.len() && point(#[trigger] positions@[j]) == c;
                assert(entities@[j] == self.cells@[c]);
            }
        }
        entities
    }

    /// The positions on which an entity stands, each once, in no particular
    /// order.
    pub fn positions(&self) -> (positions: Vec<(i32, i32)>)
        ensures
            crate::cell_set::cells_of(positions@) == self.cells@.dom(),
            positions@.no_duplicates(),
    {
        self.cells.cells()
    }
}

impl Default for SpatialGrid {
    fn default() -> (grid: SpatialGrid)
        ensures
            grid.cells@ == Map::<Point, Entity>::empty(),
            grid.chunk_size == 32,
    {
        SpatialGrid::new()
    }
}

} // verus!
