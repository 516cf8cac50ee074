use std::collections::HashSet;
use vstd::prelude::*;

use crate::game_state::fits_i32;
use crate::grid::GridCoordinate;

verus! {

broadcast use vstd::std_specs::hash::group_hash_axioms;

/// Offset that moves an `i32` into `0..2^32`.
pub open spec fn key_bias() -> int {
    0x8000_0000
}

/// The hash key of a cell: both coordinates biased into `0..2^32` and
/// packed into one 64-bit number.
pub open spec fn key_of(c: (int, int)) -> int {
    (c.0 + key_bias()) * 0x1_0000_0000 + (c.1 + key_bias())
}

pub proof fn lemma_key_of_range(c: (int, int))
    requires
        fits_i32(c.0),
        fits_i32(c.1),
    ensures
        0 <= key_of(c) <= u64::MAX,
{
    assert(0 <= (c.0 + key_bias()) * 0x1_0000_0000 <= 0xffff_ffff_0000_0000) by (nonlinear_arith)
        requires
            0 <= c.0 + key_bias() <= 0xffff_ffff,
    ;
}

/// Distinct cells have distinct keys.
pub proof fn lemma_key_of_injective(a: (int, int), b: (int, int))
    requires
        fits_i32(a.0),
        fits_i32(a.1),
        fits_i32(b.0),
        fits_i32(b.1),
        key_of(a) == key_of(b),
    ensures
        a == b,
{
    let ha = a.0 + key_bias();
    let hb = b.0 + key_bias();
    let la = a.1 + key_bias();
    let lb = b.1 + key_bias();
    assert(ha == hb) by (nonlinear_arith)
        requires
            ha * 0x1_0000_0000 + la == hb * 0x1_0000_0000 + lb,
            0 <= la < 0x1_0000_0000,
            0 <= lb < 0x1_0000_0000,
    ;
}

fn cell_key(c: GridCoordinate) -> (r: u64)
    ensures
        r == key_of(c.cell()),
{
    proof {
        lemma_key_of_range(c.cell());
    }
    let high = (c.x as i64 + 0x8000_0000) as u64;
    let low = (c.y as i64 + 0x8000_0000) as u64;
    assert(high * 0x1_0000_0000 <= 0xffff_ffff_0000_0000) by (nonlinear_arith)
        requires
            high <= 0xffff_ffff,
    ;
    high * 0x1_0000_0000 + low
}

/// The set of cells listed in `s`.
pub open spec fn cells_of(s: Seq<GridCoordinate>) -> Set<(int, int)> {
    Set::new(|c: (int, int)| exists|j: int| 0 <= j < s.len() && #[trigger] s[j].cell() == c)
}

/// Blocked cells and level bounds, as mathematical values.
pub struct WallModel {
    pub blocked: Set<(int, int)>,
    pub width: int,
    pub height: int,
}

impl WallModel {
    /// A cell is blocked when it lies outside `[0, width) x [0, height)` or
    /// holds a wall.
    pub open spec fn blocks(self, c: (int, int)) -> bool {
        c.0 < 0 || c.1 < 0 || c.0 >= self.width || c.1 >= self.height || self.blocked.contains(c)
    }
}

/// The wall locations of the current level, cached for quick lookup.
#[derive(Debug)]
pub struct LevelWalls {
    wall_locations: HashSet<u64>,
    level_width: i32,
    level_height: i32,
}

impl View for LevelWalls {
    type V = WallModel;

    closed spec fn view(&self) -> WallModel {
        WallModel {
            blocked: Set::new(
                |c: (int, int)|
                    fits_i32(c.0) && fits_i32(c.1) && self.wall_locations@.contains(
                        key_of(c) as u64,
                    ),
            ),
            width: self.level_width as int,
            height: self.level_height as int,
        }
    }
}

impl Default for LevelWalls {
    /// No walls and an empty level: every cell is out of bounds.
    fn default() -> (r: Self)
        ensures
            r@.blocked == Set::<(int, int)>::empty(),
            r@.width == 0,
            r@.height == 0,
    {
        let r = LevelWalls { wall_locations: HashSet::new(), level_width: 0, level_height: 0 };
        assert(r@.blocked =~= Set::<(int, int)>::empty());
        r
    }
}

impl LevelWalls {
    /// Builds the map of a level `level_width_px` by `level_height_px`
    /// pixels, cut into square cells of `grid_size` pixels, with a wall on
    /// each of `wall_cells`.
    pub fn build(
        level_width_px: i32,
        level_height_px: i32,
        grid_size: i32,
        wall_cells: &Vec<GridCoordinate>,
    ) -> (r: LevelWalls)
        requires
            level_width_px >= 0,
            level_height_px >= 0,
            grid_size > 0,
        ensures
            r@.width == level_width_px / grid_size,
            r@.height == level_height_px / grid_size,
            r@.blocked == cells_of(wall_cells@),
            0 <= r@.width <= i32::MAX,
            0 <= r@.height <= i32::MAX,
    {
        let mut wall_locations: HashSet<u64> = HashSet::new();
        let mut i: usize = 0;
        while i < wall_cells.len()
            invariant
                i <= wall_cells.len(),
                forall|k: u64|
                    wall_locations@.contains(k) <==> exists|j: int|
                        0 <= j < i && key_of(#[trigger] wall_cells@[j].cell()) == k,
            decreases wall_cells.len() - i,
        {
            let key = cell_key(wall_cells[i]);
            wall_locations.insert(key);
            i = i + 1;
        }
        let level_width = level_width_px / grid_size;
        let level_height = level_height_px / grid_size;
        let r = LevelWalls { wall_locations, level_width, level_height };
        assert forall|c: (int, int)| r@.blocked.contains(c) <==> cells_of(wall_cells@).contains(
            c,
        ) by {
            if r@.blocked.contains(c) {
                let j = choose|j: int|
                    0 <= j < wall_cells.len() && key_of(#[trigger] wall_cells@[j].cell())
                        == key_of(c) as u64;
                lemma_key_of_range(c);
                lemma_key_of_injective(wall_cells@[j].cell(), c);
            }
            if cells_of(wall_cells@).contains(c) {
                let j = choose|j: int| 0 <= j < wall_cells.len() && #[trigger] wall_cells@[j].cell() == c;
                lemma_key_of_range(c);
                assert(wall_locations@.contains(key_of(c) as u64));
            }
        }
        assert(r@.blocked =~= cells_of(wall_cells@));
        r
    }

    /// The bounds of a level are themselves `i32` values.
    pub proof fn lemma_bounds_fit(&self)
        ensures
            fits_i32(self@.width),
            fits_i32(self@.height),
    {
    }

    /// Whether the player may not stand on `grid_coords`.
    pub fn in_wall(&self, grid_coords: &GridCoordinate) -> (r: bool)
        ensures
            r == self@.blocks(grid_coords.cell()),
    {
        if grid_coords.x < 0 || grid_coords.y < 0 || grid_coords.x >= self.level_width
            || grid_coords.y >= self.level_height {
            return true;
        }
        let key = cell_key(*grid_coords);
        self.wall_locations.contains(&key)
    }
}

} // verus!
