use vstd::prelude::*;

verus! {

/// Dimensions of a tile grid, in tiles.
#[derive(Clone, Copy, Debug, PartialEq, Eq, Structural)]
pub struct MapSize {
    /// Number of columns.
    pub x: u32,
    /// Number of rows.
    pub y: u32,
}

impl MapSize {
    /// Number of cells in a grid of this size.
    pub open spec fn cell_count(self) -> nat {
        (self.x * self.y) as nat
    }

    /// Whether `(x, y)` names a cell of the grid.
    pub open spec fn contains(self, x: int, y: int) -> bool {
        0 <= x < self.x && 0 <= y < self.y
    }

    /// Row-major position of cell `(x, y)` in the tile buffer.
    pub open spec fn cell_index(self, x: int, y: int) -> int {
        y * self.x + x
    }

    /// A size that a map can be built with: both dimensions at least one.
    pub open spec fn valid(self) -> bool {
        self.x >= 1 && self.y >= 1
    }

    /// A grid of `x` columns and `y` rows.
    pub fn new(x: u32, y: u32) -> (size: MapSize)
        ensures
            size.x == x,
            size.y == y,
    {
        MapSize { x, y }
    }

    /// The four corners of the grid, in the order bottom-left, bottom-right,
    /// top-left, top-right. Their images under the projection span the
    /// bounding rectangle of the map.
    pub fn corners(&self) -> (c: [(u32, u32); 4])
        ensures
            c[0] == (0u32, 0u32),
            c[1] == (self.x, 0u32),
            c[2] == (0u32, self.y),
            c[3] == (self.x, self.y),
    {
        [(0, 0), (self.x, 0), (0, self.y), (self.x, self.y)]
    }
}

/// Every cell of the grid has a position inside the buffer.
pub proof fn lemma_cell_index_in_range(size: MapSize, x: int, y: int)
    requires
        size.contains(x, y),
    ensures
        0 <= size.cell_index(x, y) < size.cell_count(),
{
    assert(0 <= y * size.x && y * size.x + x < size.x * size.y) by (nonlinear_arith)
        requires
            0 <= x < size.x,
            0 <= y < size.y,
    ;
}

/// Distinct cells have distinct positions: the buffer holds one slot per cell.
pub proof fn lemma_cell_index_injective(size: MapSize, x1: int, y1: int, x2: int, y2: int)
    requires
        size.contains(x1, y1),
        size.contains(x2, y2),
        size.cell_index(x1, y1) == size.cell_index(x2, y2),
    ensures
        x1 == x2,
        y1 == y2,
{
    let w: int = size.x as int;
    assert(y1 == y2) by (nonlinear_arith)
        requires
            0 <= x1 < w,
            0 <= x2 < w,
            y1 * w + x1 == y2 * w + x2,
    {
        if y1 < y2 {
            assert((y2 - y1) * w >= w);
        } else if y2 < y1 {
            assert((y1 - y2) * w >= w);
        }
    }
}

} // verus!
