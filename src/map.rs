use std::collections::HashMap;

use vstd::prelude::*;

use crate::tile::TilePosition;

verus! {

broadcast use vstd::std_specs::hash::group_hash_axioms;

/// Marks an entity that blocks a cell.
#[derive(Clone, Copy, Debug, PartialEq, Eq, Structural)]
pub struct Wall;

/// Glyph of the sprite sheet that draws a wall: a full block.
pub const WALL_GLYPH: usize = 186;

/// Columns of the game window, in tiles.
pub const WINDOW_COLUMNS: i32 = 80;

/// Rows of the game window, in tiles.
pub const WINDOW_ROWS: i32 = 30;

/// Number of layers that every map is made with.
pub const NUM_LAYERS: usize = 5;

/// Why a map operation was refused.
#[derive(Clone, Copy, Debug, PartialEq, Eq, Structural)]
pub enum MapError {
    /// The corrected coordinates of a position fall outside the grid.
    IndexOutOfBounds,
    /// A requested grid size is negative.
    InvalidDimensions,
    /// The entity already has a place on the map.
    EntityAlreadyPlaced,
}

/// A grid of `width` by `height` by `num_layers` cells, each holding at most one
/// entity, with the reverse index from each placed entity to its logical
/// position. Array index `(0, 0, 0)` is the logical position `zero_pos`.
pub struct TileMap {
    pub forward: Vec<Vec<Vec<Option<u64>>>>,
    pub backward: HashMap<u64, TilePosition>,
    pub width: usize,
    pub height: usize,
    pub num_layers: usize,
    pub zero_pos: TilePosition,
}

/// The logical positions at which the default walls stand.
pub open spec fn default_wall_position(i: int) -> TilePosition {
    TilePosition { x: (i - 1) as i32, y: 2, z: 0 }
}

/// The logical positions of the default walls, left to right.
pub fn default_wall_positions() -> (r: Vec<TilePosition>)
    ensures
        r@ == seq![default_wall_position(0), default_wall_position(1), default_wall_position(2)],
{
    let mut r: Vec<TilePosition> = Vec::new();
    r.push(TilePosition::new(-1, 2, 0));
    r.push(TilePosition::new(0, 2, 0));
    r.push(TilePosition::new(1, 2, 0));
    r
}

impl TileMap {
    /// What the cell at array index `(cx, cy, cz)` holds.
    pub open spec fn cell(&self, cx: int, cy: int, cz: int) -> Option<u64> {
        self.forward@[cx]@[cy]@[cz]
    }

    /// The array index of a logical position.
    pub open spec fn corrected(&self, p: TilePosition) -> (int, int, int) {
        (p.x + self.zero_pos.x, p.y + self.zero_pos.y, p.z + self.zero_pos.z)
    }

    pub open spec fn index_in_grid(&self, cx: int, cy: int, cz: int) -> bool {
        0 <= cx < self.width && 0 <= cy < self.height && 0 <= cz < self.num_layers
    }

    /// Whether a logical position has a cell on this map.
    pub open spec fn in_bounds(&self, p: TilePosition) -> bool {
        let c = self.corrected(p);
        self.index_in_grid(c.0, c.1, c.2)
    }

    pub open spec fn shape_ok(&self) -> bool {
        &&& self.num_layers == NUM_LAYERS
        &&& self.forward@.len() == self.width
        &&& forall|i: int|
            0 <= i < self.width ==> (#[trigger] self.forward@[i])@.len() == self.height
        &&& forall|i: int, j: int|
            0 <= i < self.width && 0 <= j < self.height ==> (#[trigger] self.forward@[i]@[j])@.len()
                == self.num_layers
    }

    /// Every occupied cell is recorded in the reverse index, at the logical
    /// position whose array index is that cell.
    pub open spec fn wf(&self) -> bool {
        &&& self.shape_ok()
        &&& forall|i: int, j: int, k: int|
            self.index_in_grid(i, j, k) && (#[trigger] self.cell(i, j, k)) is Some ==> {
                let e = self.cell(i, j, k)->0;
                &&& self.backward@.contains_key(e)
                &&& self.corrected(self.backward@[e]) == (i, j, k)
            }
    }

    /// The map after entity `e` was placed at logical position `p`.
    pub open spec fn placed(self, next: Self, e: u64, p: TilePosition) -> bool {
        let c = self.corrected(p);
        &&& next.width == self.width
        &&& next.height == self.height
        &&& next.num_layers == self.num_layers
        &&& next.zero_pos == self.zero_pos
        &&& next.backward@ == self.backward@.insert(e, p)
        &&& forall|i: int, j: int, k: int|
            #![trigger next.cell(i, j, k)]
            self.index_in_grid(i, j, k) ==> next.cell(i, j, k) == if (i, j, k) == c {
                Some(e)
            } else {
                self.cell(i, j, k)
            }
    }

    /// Every default wall position has a cell on this map.
    pub open spec fn walls_fit(&self) -> bool {
        &&& self.in_bounds(default_wall_position(0))
        &&& self.in_bounds(default_wall_position(1))
        &&& self.in_bounds(default_wall_position(2))
    }

    /// The three wall entities are distinct and none is placed yet.
    pub open spec fn walls_free(&self, left: u64, middle: u64, right: u64) -> bool {
        &&& left != middle && left != right && middle != right
        &&& !self.backward@.contains_key(left)
        &&& !self.backward@.contains_key(middle)
        &&& !self.backward@.contains_key(right)
    }

    /// What the cell at `(i, j, k)` holds once the default walls are placed.
    pub open spec fn wall_cell(&self, left: u64, middle: u64, right: u64, i: int, j: int, k: int) -> Option<u64> {
        if (i, j, k) == self.corrected(default_wall_position(0)) {
            Some(left)
        } else if (i, j, k) == self.corrected(default_wall_position(1)) {
            Some(middle)
        } else if (i, j, k) == self.corrected(default_wall_position(2)) {
            Some(right)
        } else {
            self.cell(i, j, k)
        }
    }

    /// The map `next` is this one with the default walls placed.
    pub open spec fn walls_placed(self, next: Self, left: u64, middle: u64, right: u64) -> bool {
        &&& next.width == self.width
        &&& next.height == self.height
        &&& next.num_layers == self.num_layers
        &&& next.zero_pos == self.zero_pos
        &&& next.backward@ == self.backward@.insert(left, default_wall_position(0)).insert(
            middle,
            default_wall_position(1),
        ).insert(right, default_wall_position(2))
        &&& forall|i: int, j: int, k: int|
            self.index_in_grid(i, j, k) ==> #[trigger] next.cell(i, j, k) == self.wall_cell(
                left,
                middle,
                right,
                i,
                j,
                k,
            )
    }

    /// An empty map of `width` by `height` cells on each of its layers, whose
    /// array origin is the logical position `(zero_pos_x, zero_pos_y, 0)`.
    pub fn new(width: usize, height: usize, zero_pos_x: i32, zero_pos_y: i32) -> (r: TileMap)
        ensures
            r.wf(),
            r.width == width,
            r.height == height,
            r.num_layers == NUM_LAYERS,
            r.zero_pos == (TilePosition { x: zero_pos_x, y: zero_pos_y, z: 0 }),
            forall|i: int, j: int, k: int|
                r.index_in_grid(i, j, k) ==> #[trigger] r.cell(i, j, k) is None,
            r.backward@ == Map::<u64, TilePosition>::empty(),
    {
        let mut forward: Vec<Vec<Vec<Option<u64>>>> = Vec::new();
        let mut i: usize = 0;
        while i < width
            invariant
                i <= width,
                forward@.len() == i,
                forall|a: int| 0 <= a < i ==> (#[trigger] forward@[a])@.len() == height,
                forall|a: int, b: int|
                    0 <= a < i && 0 <= b < height ==> (#[trigger] forward@[a]@[b])@.len()
                        == NUM_LAYERS,
                forall|a: int, b: int, c: int|
                    0 <= a < i && 0 <= b < height && 0 <= c < NUM_LAYERS
                        ==> #[trigger] forward@[a]@[b]@[c] is None,
            decreases width - i,
        {
            let mut column: Vec<Vec<Option<u64>>> = Vec::new();
            let mut j: usize = 0;
            while j < height
                invariant
                    j <= height,
                    column@.len() == j,
                    forall|b: int| 0 <= b < j ==> (#[trigger] column@[b])@.len() == NUM_LAYERS,
                    forall|b: int, c: int|
                        0 <= b < j && 0 <= c < NUM_LAYERS ==> #[trigger] column@[b]@[c] is None,
                decreases height - j,
            {
                let mut stack: Vec<Option<u64>> = Vec::new();
                let mut k: usize = 0;
                while k < NUM_LAYERS
                    invariant
                        k <= NUM_LAYERS,
                        stack@.len() == k,
                        forall|c: int| 0 <= c < k ==> #[trigger] stack@[c] is None,
                    decreases NUM_LAYERS - k,
                {
                    stack.push(None);
                    k += 1;
                }
                column.push(stack);
                j += 1;
            }
            forward.push(column);
            i += 1;
        }
        TileMap {
            forward,
            backward: HashMap::new(),
            width,
            height,
            num_layers: NUM_LAYERS,
            zero_pos: TilePosition { x: zero_pos_x, y: zero_pos_y, z: 0 },
        }
    }
    /// The array index of `position`, where it has a cell on this map.
    pub fn corrected_index(&self, position: TilePosition) -> (r: Option<(usize, usize, usize)>)
        ensures
            r is Some <==> self.in_bounds(position),
            r matches Some(c) ==> (c.0 as int, c.1 as int, c.2 as int) == self.corrected(position),
    {
        let cx: i64 = position.x as i64 + self.zero_pos.x as i64;
        let cy: i64 = position.y as i64 + self.zero_pos.y as i64;
        let cz: i64 = position.z as i64 + self.zero_pos.z as i64;
        if cx < 0 || cy < 0 || cz < 0 {
            return None;
        }
        if cx as u64 >= self.width as u64 || cy as u64 >= self.height as u64 || cz as u64
            >= self.num_layers as u64 {
            return None;
        }
        Some((cx as usize, cy as usize, cz as usize))
    }

    /// Places entity `entity` at logical position `position`: the cell at its
    /// corrected coordinates takes the entity, and the reverse index records
    /// the position. A position without a cell, or an entity that is already
    /// placed, leaves the map as it was.
    pub fn spawn_wall_at(&mut self, entity: u64, position: TilePosition) -> (r: Result<
        (),
        MapError,
    >)
        requires
            old(self).wf(),
        ensures
            final(self).wf(),
            r == Err::<(), MapError>(MapError::IndexOutOfBounds) <==> !old(self).in_bounds(
                position,
            ),
            r == Err::<(), MapError>(MapError::EntityAlreadyPlaced) <==> old(self).in_bounds(
                position,
            ) && old(self).backward@.contains_key(entity),
            r is Ok <==> old(self).in_bounds(position) && !old(self).backward@.contains_key(entity),
            r is Ok ==> old(self).placed(*final(self), entity, position),
            r is Err ==> *final(self) == *old(self),
    {
        let (ux, uy, uz) = match self.corrected_index(position) {
            Some(c) => c,
            None => {
                return Err(MapError::IndexOutOfBounds);
            },
        };
        if self.backward.contains_key(&entity) {
            return Err(MapError::EntityAlreadyPlaced);
        }
        let ghost prev = *self;
        self.forward[ux][uy][uz] = Some(entity);
        self.backward.insert(entity, position);
        proof {
            assert(self.shape_ok()) by {
                assert forall|i: int| 0 <= i < self.width implies (#[trigger] self.forward@[i])@.len()
                    == self.height by {
                    assert(prev.forward@[i]@.len() == self.height);
                }
                assert forall|i: int, j: int| 0 <= i < self.width && 0 <= j < self.height implies (
                #[trigger] self.forward@[i]@[j])@.len() == self.num_layers by {
                    assert(prev.forward@[i]@.len() == self.height);
                    assert(prev.forward@[i]@[j]@.len() == self.num_layers);
                }
            }
            assert forall|i: int, j: int, k: int|
                self.index_in_grid(i, j, k) && (#[trigger] self.cell(i, j, k)) is Some implies {
                let e = self.cell(i, j, k)->0;
                &&& self.backward@.contains_key(e)
                &&& self.corrected(self.backward@[e]) == (i, j, k)
            } by {
                if (i, j, k) != (ux as int, uy as int, uz as int) {
                    assert(prev.cell(i, j, k) == self.cell(i, j, k));
                }
            }
        }
        Ok(())
    }
    /// Places the three default walls, entities `left`, `middle` and `right`,
    /// at the logical positions `(-1, 2, 0)`, `(0, 2, 0)` and `(1, 2, 0)`. Either
    /// all three are placed or, where one of them cannot be, none is.
    pub fn spawn_walls(&mut self, left: u64, middle: u64, right: u64) -> (r: Result<
        (),
        MapError,
    >)
        requires
            old(self).wf(),
        ensures
            final(self).wf(),
            r == Err::<(), MapError>(MapError::IndexOutOfBounds) <==> !old(self).walls_fit(),
            r == Err::<(), MapError>(MapError::EntityAlreadyPlaced) <==> old(self).walls_fit()
                && !old(self).walls_free(left, middle, right),
            r is Ok <==> old(self).walls_fit() && old(self).walls_free(left, middle, right),
            r is Ok ==> old(self).walls_placed(*final(self), left, middle, right),
            r is Err ==> *final(self) == *old(self),
    {
        let positions = default_wall_positions();
        let p0 = positions[0];
        let p1 = positions[1];
        let p2 = positions[2];
        if self.corrected_index(p0).is_none() || self.corrected_index(p1).is_none()
            || self.corrected_index(p2).is_none() {
            return Err(MapError::IndexOutOfBounds);
        }
        if left == middle || left == right || middle == right || self.backward.contains_key(&left)
            || self.backward.contains_key(&middle) || self.backward.contains_key(&right) {
            return Err(MapError::EntityAlreadyPlaced);
        }
        let ghost m0 = *self;
        assert(m0.in_bounds(p0) && m0.in_bounds(p1) && m0.in_bounds(p2));
        let r0 = self.spawn_wall_at(left, p0);
        let ghost m1 = *self;
        assert(r0 is Ok);
        assert(m1.in_bounds(p1) && m1.in_bounds(p2));
        let r1 = self.spawn_wall_at(middle, p1);
        let ghost m2 = *self;
        assert(r1 is Ok);
        let r2 = self.spawn_wall_at(right, p2);
        proof {
            assert(r0 is Ok && r1 is Ok && r2 is Ok);
            assert forall|i: int, j: int, k: int|
                m0.index_in_grid(i, j, k) implies #[trigger] self.cell(i, j, k) == m0.wall_cell(
                left,
                middle,
                right,
                i,
                j,
                k,
            ) by {
                assert(m1.cell(i, j, k) == m0.cell(i, j, k) || (i, j, k) == m0.corrected(p0));
                assert(m2.cell(i, j, k) == m1.cell(i, j, k) || (i, j, k) == m0.corrected(p1));
            }
        }
        Ok(())
    }
    /// The map of a window of `columns` by `rows` tiles, with the logical
    /// origin at its centre. A negative size is refused.
    pub fn for_window(columns: i32, rows: i32) -> (r: Result<TileMap, MapError>)
        ensures
            r is Err <==> columns < 0 || rows < 0,
            r matches Err(e) ==> e == MapError::InvalidDimensions,
            r matches Ok(m) ==> {
                &&& m.wf()
                &&& m.width == columns
                &&& m.height == rows
                &&& m.num_layers == NUM_LAYERS
                &&& m.zero_pos.x == columns / 2
                &&& m.zero_pos.y == rows / 2
                &&& m.zero_pos.z == 0
                &&& forall|i: int, j: int, k: int|
                    m.index_in_grid(i, j, k) ==> #[trigger] m.cell(i, j, k) is None
                &&& m.backward@ == Map::<u64, TilePosition>::empty()
            },
    {
        if columns < 0 || rows < 0 {
            return Err(MapError::InvalidDimensions);
        }
        Ok(TileMap::new(columns as usize, rows as usize, columns / 2, rows / 2))
    }
}

/// Once entity `e` is placed at a position that has a cell, the cell at the
/// position's corrected coordinates holds `e`, and the reverse index gives the
/// position back for `e`.
pub proof fn lemma_placed_entity_found(before: TileMap, after: TileMap, e: u64, p: TilePosition)
    requires
        before.in_bounds(p),
        before.placed(after, e, p),
    ensures
        after.cell(before.corrected(p).0, before.corrected(p).1, before.corrected(p).2) == Some(e),
        after.backward@.contains_key(e),
        after.backward@[e] == p,
{
    let c = before.corrected(p);
    assert(after.cell(c.0, c.1, c.2) == Some(e));
}

/// Once the default walls are placed, each of the three entities is found in
/// the reverse index at its own wall position, and in the cell of that position.
pub proof fn lemma_default_walls_found(
    before: TileMap,
    after: TileMap,
    left: u64,
    middle: u64,
    right: u64,
)
    requires
        before.walls_fit(),
        before.walls_free(left, middle, right),
        before.walls_placed(after, left, middle, right),
    ensures
        after.backward@.contains_key(left) && after.backward@[left] == default_wall_position(0),
        after.backward@.contains_key(middle) && after.backward@[middle] == default_wall_position(
            1,
        ),
        after.backward@.contains_key(right) && after.backward@[right] == default_wall_position(2),
        ({
            let c = before.corrected(default_wall_position(0));
            after.cell(c.0, c.1, c.2) == Some(left)
        }),
        ({
            let c = before.corrected(default_wall_position(1));
            after.cell(c.0, c.1, c.2) == Some(middle)
        }),
        ({
            let c = before.corrected(default_wall_position(2));
            after.cell(c.0, c.1, c.2) == Some(right)
        }),
{
    let c0 = before.corrected(default_wall_position(0));
    let c1 = before.corrected(default_wall_position(1));
    let c2 = before.corrected(default_wall_position(2));
    assert(after.cell(c0.0, c0.1, c0.2) == before.wall_cell(left, middle, right, c0.0, c0.1, c0.2));
    assert(after.cell(c1.0, c1.1, c1.2) == before.wall_cell(left, middle, right, c1.0, c1.1, c1.2));
    assert(after.cell(c2.0, c2.1, c2.2) == before.wall_cell(left, middle, right, c2.0, c2.1, c2.2));
}

} // verus!
