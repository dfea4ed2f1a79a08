//! The occupancy grid: a rectangular matrix of cells, each open (`0`) or
//! solid (non-zero), queried through one shared predicate, `is_wall`, on
//! fixed-point world coordinates. Everything outside the matrix counts as
//! solid, so the same test bounds both player movement and ray marching.

use crate::trig::FP_ONE;
use vstd::arithmetic::div_mod::{lemma_fundamental_div_mod, lemma_mod_division_less_than_divisor};
use vstd::prelude::*;

verus! {

/// Upper bound on each grid dimension, in cells; keeps every fixed-point
/// world coordinate inside the map far below the `i64` range.
pub const MAX_CELLS: usize = 1000000;

/// A configuration fault, found and rejected when a map or a renderer is
/// built, so the per-frame path never divides by zero or indexes out of
/// bounds.
#[derive(Clone, Copy, Debug, PartialEq, Eq, Structural)]
pub enum ConfigError {
    /// The grid has no rows, or its rows have no cells.
    EmptyGrid,
    /// Two rows of the grid have different lengths.
    RaggedGrid,
    /// A grid dimension exceeds `MAX_CELLS`.
    GridTooLarge,
    /// A screen dimension is zero.
    ZeroViewport,
    /// A screen dimension exceeds what the projection arithmetic carries.
    ViewportTooLarge,
}

/// The grid-cell index containing a non-negative fixed-point coordinate:
/// truncation to whole world units.
pub open spec fn cell_index(w: int) -> int {
    w / (FP_ONE as int)
}

/// The occupancy grid, with the collectable key's fixed-point position.
pub struct GridMap {
    pub grid: Vec<Vec<i32>>,
    pub key_position: (i64, i64),
}

impl GridMap {
    /// The grid is a non-degenerate rectangle: at least one row and one
    /// column, all rows of equal length, within `MAX_CELLS` each way.
    pub open spec fn wf(self) -> bool {
        &&& 1 <= self.grid@.len() <= MAX_CELLS
        &&& 1 <= self.grid@[0]@.len() <= MAX_CELLS
        &&& forall|i: int|
            0 <= i < self.grid@.len() ==> (#[trigger] self.grid@[i]@.len()) == self.grid@[0]@.len()
    }

    /// Number of cell columns.
    pub open spec fn width(self) -> int {
        self.grid@[0]@.len() as int
    }

    /// Number of cell rows.
    pub open spec fn height(self) -> int {
        self.grid@.len() as int
    }

    /// Occupancy of a fixed-point world position: solid when the position
    /// lies outside the matrix in either axis (negative included) or its
    /// containing cell is a wall.
    pub open spec fn spec_is_wall(self, x: int, y: int) -> bool {
        ||| x < 0
        ||| y < 0
        ||| cell_index(x) >= self.width()
        ||| cell_index(y) >= self.height()
        ||| self.grid@[cell_index(y)]@[cell_index(x)] != 0
    }

    /// The shared occupancy test: total over all fixed-point coordinates,
    /// and `true` for every out-of-bounds position.
    pub fn is_wall(&self, x: i64, y: i64) -> (r: bool)
        requires
            self.wf(),
        ensures
            r == self.spec_is_wall(x as int, y as int),
    {
        if x < 0 || y < 0 {
            return true;
        }
        let cx: i64 = x / FP_ONE;
        let cy: i64 = y / FP_ONE;
        if cx >= self.grid[0].len() as i64 || cy >= self.grid.len() as i64 {
            return true;
        }
        let row: &Vec<i32> = &self.grid[cy as usize];
        row[cx as usize] != 0
    }

    /// Every position out of the matrix's bounds is occupied, whatever the
    /// grid holds: the totality direction of the occupancy contract.
    pub proof fn lemma_out_of_bounds_is_wall(self, x: int, y: int)
        requires
            x < 0 || y < 0 || cell_index(x) >= self.width() || cell_index(y) >= self.height(),
        ensures
            self.spec_is_wall(x, y),
    {
    }

    /// A position that is not occupied lies inside the matrix: within
    /// `width * FP_ONE` by `height * FP_ONE` fixed-point units.
    pub proof fn lemma_open_position_in_bounds(self, x: int, y: int)
        requires
            self.wf(),
            !self.spec_is_wall(x, y),
        ensures
            0 <= x < self.width() * FP_ONE,
            0 <= y < self.height() * FP_ONE,
            x < MAX_CELLS * FP_ONE,
            y < MAX_CELLS * FP_ONE,
    {
        assert(self.width() * FP_ONE <= MAX_CELLS * FP_ONE) by (nonlinear_arith)
            requires
                0 < self.width() <= MAX_CELLS,
        ;
        assert(self.height() * FP_ONE <= MAX_CELLS * FP_ONE) by (nonlinear_arith)
            requires
                0 < self.height() <= MAX_CELLS,
        ;
        lemma_fundamental_div_mod(x, FP_ONE as int);
        lemma_mod_division_less_than_divisor(x, FP_ONE as int);
        lemma_fundamental_div_mod(y, FP_ONE as int);
        lemma_mod_division_less_than_divisor(y, FP_ONE as int);
        assert(FP_ONE * cell_index(x) <= FP_ONE * (self.width() - 1)) by (nonlinear_arith)
            requires
                cell_index(x) <= self.width() - 1,
        ;
        assert(FP_ONE * cell_index(y) <= FP_ONE * (self.height() - 1)) by (nonlinear_arith)
            requires
                cell_index(y) <= self.height() - 1,
        ;
        assert(FP_ONE * (self.width() - 1) == self.width() * FP_ONE - FP_ONE) by (nonlinear_arith);
        assert(FP_ONE * (self.height() - 1) == self.height() * FP_ONE - FP_ONE)
            by (nonlinear_arith);
    }

    /// Builds the reference level: a ten-by-ten maze with a solid border,
    /// and the key half a cell into cell column five, row three.
    pub fn new() -> (m: GridMap)
        ensures
            m.wf(),
            m.height() == 10,
            m.width() == 10,
            m.grid@.map_values(|row: Vec<i32>| row@) == reference_grid(),
            m.key_position.0 == 5500 && m.key_position.1 == 3500,
    {
        let grid: Vec<Vec<i32>> = vec![
            vec![1, 1, 1, 1, 1, 1, 1, 1, 1, 1],
            vec![1, 0, 0, 0, 1, 0, 0, 0, 0, 1],
            vec![1, 0, 1, 0, 1, 0, 1, 1, 0, 1],
            vec![1, 0, 1, 0, 0, 0, 0, 1, 0, 1],
            vec![1, 0, 1, 1, 1, 1, 0, 1, 0, 1],
            vec![1, 0, 0, 0, 0, 0, 0, 1, 0, 1],
            vec![1, 1, 1, 1, 1, 1, 1, 1, 0, 1],
            vec![1, 0, 0, 0, 0, 0, 0, 0, 0, 1],
            vec![1, 0, 1, 1, 1, 1, 1, 1, 1, 1],
            vec![1, 1, 1, 1, 1, 1, 1, 1, 1, 1],
        ];
        let key_position: (i64, i64) = (5500, 3500);
        proof {
            assert(grid@.map_values(|row: Vec<i32>| row@) =~= reference_grid());
        }
        GridMap { grid, key_position }
    }

    /// Accepts any non-degenerate rectangular grid, with the key's
    /// fixed-point position; rejects an empty, ragged or oversized one,
    /// naming the first fault found.
    pub fn from_grid(grid: Vec<Vec<i32>>, key_x: i64, key_y: i64) -> (r: Result<
        GridMap,
        ConfigError,
    >)
        ensures
            r is Ok <==> (GridMap { grid, key_position: (key_x, key_y) }).wf(),
            r matches Ok(m) ==> m.grid@ == grid@ && m.key_position == (key_x, key_y) && m.wf(),
            r matches Err(e) ==> (e == ConfigError::EmptyGrid || e == ConfigError::RaggedGrid
                || e == ConfigError::GridTooLarge),
    {
        if grid.len() == 0 {
            return Err(ConfigError::EmptyGrid);
        }
        if grid[0].len() == 0 {
            return Err(ConfigError::EmptyGrid);
        }
        if grid.len() > MAX_CELLS || grid[0].len() > MAX_CELLS {
            return Err(ConfigError::GridTooLarge);
        }
        let width: usize = grid[0].len();
        let mut i: usize = 1;
        while i < grid.len()
            invariant
                1 <= i <= grid@.len(),
                width == grid@[0]@.len(),
                forall|j: int| 0 <= j < i ==> (#[trigger] grid@[j]@.len()) == width,
            decreases grid@.len() - i,
        {
            if grid[i].len() != width {
                return Err(ConfigError::RaggedGrid);
            }
            i = i + 1;
        }
        Ok(GridMap { grid, key_position: (key_x, key_y) })
    }
}

/// The cell matrix of the reference level.
pub open spec fn reference_grid() -> Seq<Seq<i32>> {
    seq![
        seq![1i32, 1, 1, 1, 1, 1, 1, 1, 1, 1],
        seq![1i32, 0, 0, 0, 1, 0, 0, 0, 0, 1],
        seq![1i32, 0, 1, 0, 1, 0, 1, 1, 0, 1],
        seq![1i32, 0, 1, 0, 0, 0, 0, 1, 0, 1],
        seq![1i32, 0, 1, 1, 1, 1, 0, 1, 0, 1],
        seq![1i32, 0, 0, 0, 0, 0, 0, 1, 0, 1],
        seq![1i32, 1, 1, 1, 1, 1, 1, 1, 0, 1],
        seq![1i32, 0, 0, 0, 0, 0, 0, 0, 0, 1],
        seq![1i32, 0, 1, 1, 1, 1, 1, 1, 1, 1],
        seq![1i32, 1, 1, 1, 1, 1, 1, 1, 1, 1],
    ]
}

} // verus!
