use vstd::prelude::*;
use crate::error::MapError;
use crate::grid::{lemma_cell_index_in_range, lemma_cell_index_injective, MapSize};

verus! {

/// Mathematical model of a tile buffer: its dimensions, one tile index per
/// cell in row-major order, and whether edits are waiting to be uploaded.
pub struct TileGrid {
    pub size: MapSize,
    pub cells: Seq<u16>,
    pub dirty: bool,
}

impl TileGrid {
    /// The buffer holds exactly one cell per grid position, and the grid is
    /// not empty.
    pub open spec fn wf(self) -> bool {
        &&& self.size.valid()
        &&& self.cells.len() == self.size.cell_count()
    }

    /// A freshly allocated buffer: every cell holds tile index zero and
    /// nothing waits to be uploaded.
    pub open spec fn blank(size: MapSize) -> TileGrid {
        TileGrid { size, cells: Seq::new(size.cell_count(), |i: int| 0u16), dirty: false }
    }

    /// The tile index stored at `(x, y)`.
    pub open spec fn read(self, x: int, y: int) -> u16
        recommends
            self.size.contains(x, y),
    {
        self.cells[self.size.cell_index(x, y)]
    }

    /// The buffer after storing `index` at `(x, y)`: that cell changes, and
    /// the buffer is marked for upload.
    pub open spec fn write(self, x: int, y: int, index: u16) -> TileGrid
        recommends
            self.size.contains(x, y),
    {
        TileGrid {
            size: self.size,
            cells: self.cells.update(self.size.cell_index(x, y), index),
            dirty: true,
        }
    }

    /// The buffer after the renderer has taken its contents.
    pub open spec fn uploaded(self) -> TileGrid {
        TileGrid { size: self.size, cells: self.cells, dirty: false }
    }

    /// Number of uploads that the buffer currently asks for: one if it was
    /// edited since the last upload, none otherwise.
    pub open spec fn uploads_due(self) -> nat {
        if self.dirty {
            1
        } else {
            0
        }
    }
}

/// One edit of an indexer session: store `index` at `(x, y)`.
#[derive(Clone, Copy, Debug, PartialEq, Eq, Structural)]
pub struct TileWrite {
    pub x: u32,
    pub y: u32,
    pub index: u16,
}

impl TileWrite {
    /// Whether the write names a cell of a grid of the given size.
    pub open spec fn lands_in(self, size: MapSize) -> bool {
        size.contains(self.x as int, self.y as int)
    }
}

/// Whether at least one of the writes names a cell of the grid.
pub open spec fn any_lands(size: MapSize, writes: Seq<TileWrite>) -> bool {
    exists|i: int| 0 <= i < writes.len() && (#[trigger] writes[i]).lands_in(size)
}

impl TileGrid {
    /// What one `set` call does to the buffer: the write if the coordinates
    /// name a cell, nothing otherwise.
    pub open spec fn apply(self, w: TileWrite) -> TileGrid {
        if w.lands_in(self.size) {
            self.write(w.x as int, w.y as int, w.index)
        } else {
            self
        }
    }

    /// The buffer after a whole session of `set` calls, in order.
    pub open spec fn apply_all(self, writes: Seq<TileWrite>) -> TileGrid
        decreases writes.len(),
    {
        if writes.len() == 0 {
            self
        } else {
            self.apply_all(writes.drop_last()).apply(writes.last())
        }
    }
}

/// Exclusive accessor to a map's tile indices. It owns the cells; a map hands
/// it out by mutable borrow, so at most one session edits a map at a time.
#[derive(Debug)]
pub struct MapIndexer {
    size: MapSize,
    cells: Vec<u16>,
    dirty: bool,
}

impl View for MapIndexer {
    type V = TileGrid;

    closed spec fn view(&self) -> TileGrid {
        TileGrid { size: self.size, cells: self.cells@, dirty: self.dirty }
    }
}

impl MapIndexer {
    /// Every indexer is a well-formed buffer.
    #[verifier::type_invariant]
    pub open spec fn inv(&self) -> bool {
        self@.wf()
    }

    /// Allocates the buffer for a grid of the given size, every cell zero.
    /// Fails with `Configuration` exactly when a dimension is zero or the
    /// cell count exceeds what the machine can address.
    pub(crate) fn new(size: MapSize) -> (r: Result<MapIndexer, MapError>)
        ensures
            r is Ok <==> size.valid() && size.cell_count() <= usize::MAX,
            r matches Ok(m) ==> m@ == TileGrid::blank(size),
            r matches Err(e) ==> e == MapError::Configuration,
    {
        if size.x == 0 || size.y == 0 {
            return Err(MapError::Configuration);
        }
        let columns: usize = size.x as usize;
        let rows: usize = size.y as usize;
        match columns.checked_mul(rows) {
            Some(count) => {
                let cells: Vec<u16> = vec![0u16; count];
                assert(cells@ =~= Seq::new(size.cell_count(), |i: int| 0u16));
                Ok(MapIndexer { size, cells, dirty: false })
            },
            None => Err(MapError::Configuration),
        }
    }

    /// Where cell `(x, y)` stands in the buffer.
    fn position(&self, x: u32, y: u32) -> (position: usize)
        requires
            self@.size.contains(x as int, y as int),
        ensures
            position == self@.size.cell_index(x as int, y as int),
            position < self@.cells.len(),
    {
        proof {
            use_type_invariant(self);
            lemma_cell_index_in_range(self.size, x as int, y as int);
            assert(self.cells@.len() == self.cells.len());
        }
        y as usize * self.size.x as usize + x as usize
    }

    /// Dimensions of the grid; callers bound their iteration by it.
    pub fn size(&self) -> (size: MapSize)
        ensures
            size == self@.size,
            self@.wf(),
    {
        proof {
            use_type_invariant(self);
        }
        self.size
    }

    /// Reads the tile index at `(x, y)`. Coordinates at or beyond either
    /// dimension are reported as `OutOfBoundsAccess`.
    pub fn get(&self, x: u32, y: u32) -> (r: Result<u16, MapError>)
        ensures
            self@.wf(),
            r is Ok <==> self@.size.contains(x as int, y as int),
            r matches Ok(index) ==> index == self@.read(x as int, y as int),
            r matches Err(e) ==> e == MapError::OutOfBoundsAccess,
    {
        proof {
            use_type_invariant(self);
        }
        if x < self.size.x && y < self.size.y {
            let position: usize = self.position(x, y);
            Ok(self.cells[position])
        } else {
            Err(MapError::OutOfBoundsAccess)
        }
    }

    /// Stores `index` at `(x, y)` and marks the buffer for upload. With
    /// coordinates outside the grid nothing changes and `OutOfBoundsAccess`
    /// is reported.
    pub fn set(&mut self, x: u32, y: u32, index: u16) -> (r: Result<(), MapError>)
        ensures
            old(self)@.wf(),
            r is Ok <==> old(self)@.size.contains(x as int, y as int),
            r is Ok ==> final(self)@ == old(self)@.write(x as int, y as int, index),
            r is Err ==> final(self)@ == old(self)@,
            r matches Err(e) ==> e == MapError::OutOfBoundsAccess,
            final(self)@ == old(self)@.apply(TileWrite { x, y, index }),
    {
        proof {
            use_type_invariant(&*self);
        }
        if x < self.size.x && y < self.size.y {
            let position: usize = self.position(x, y);
            self.cells[position] = index;
            self.dirty = true;
            Ok(())
        } else {
            Err(MapError::OutOfBoundsAccess)
        }
    }

    /// All tile indices in row-major order, as the renderer uploads them.
    pub fn cells(&self) -> (cells: &Vec<u16>)
        ensures
            cells@ == self@.cells,
            self@.wf(),
    {
        proof {
            use_type_invariant(self);
        }
        &self.cells
    }

    /// Whether edits are waiting to be uploaded.
    pub(crate) fn is_dirty(&self) -> (dirty: bool)
        ensures
            dirty == self@.dirty,
    {
        self.dirty
    }

    /// Records that the renderer has taken the buffer's contents.
    pub(crate) fn clear_dirty(&mut self)
        ensures
            final(self)@ == old(self)@.uploaded(),
    {
        proof {
            use_type_invariant(&*self);
        }
        self.dirty = false;
    }
}

impl Clone for MapIndexer {
    /// A buffer of its own with the same size, tiles and upload flag.
    fn clone(&self) -> (copy: MapIndexer)
        ensures
            copy@ == self@,
    {
        proof {
            use_type_invariant(self);
        }
        let cells: Vec<u16> = self.cells.clone();
        assert(cells@ =~= self.cells@);
        MapIndexer { size: self.size, cells, dirty: self.dirty }
    }
}

/// A write lands in the cell it names and in no other: reading the same
/// coordinates gives the new index, reading any other cell gives what it held
/// before.
pub proof fn lemma_write_read(g: TileGrid, x: int, y: int, index: u16, x2: int, y2: int)
    requires
        g.wf(),
        g.size.contains(x, y),
        g.size.contains(x2, y2),
    ensures
        g.write(x, y, index).wf(),
        g.write(x, y, index).read(x2, y2) == if x2 == x && y2 == y {
            index
        } else {
            g.read(x2, y2)
        },
{
    lemma_cell_index_in_range(g.size, x, y);
    lemma_cell_index_in_range(g.size, x2, y2);
    if !(x2 == x && y2 == y) {
        if g.size.cell_index(x, y) == g.size.cell_index(x2, y2) {
            lemma_cell_index_injective(g.size, x, y, x2, y2);
        }
    }
}

/// A session keeps the buffer well formed and its size fixed, whatever it
/// writes and wherever.
pub proof fn lemma_session_preserves_shape(g: TileGrid, writes: Seq<TileWrite>)
    requires
        g.wf(),
    ensures
        g.apply_all(writes).wf(),
        g.apply_all(writes).size == g.size,
    decreases writes.len(),
{
    if writes.len() > 0 {
        lemma_session_preserves_shape(g, writes.drop_last());
        let w = writes.last();
        if w.lands_in(g.size) {
            lemma_cell_index_in_range(g.size, w.x as int, w.y as int);
        }
    }
}

/// However many writes a session makes, the buffer asks for at most one
/// upload afterwards: exactly one if the buffer was already waiting or any
/// write landed, none otherwise.
pub proof fn lemma_session_uploads_once(g: TileGrid, writes: Seq<TileWrite>)
    requires
        g.wf(),
    ensures
        g.apply_all(writes).uploads_due() <= 1,
        g.apply_all(writes).uploads_due() == 1 <==> g.dirty || any_lands(g.size, writes),
    decreases writes.len(),
{
    if writes.len() > 0 {
        let earlier = writes.drop_last();
        lemma_session_uploads_once(g, earlier);
        lemma_session_preserves_shape(g, earlier);
        if any_lands(g.size, earlier) {
            let i = choose|i: int| 0 <= i < earlier.len() && (#[trigger] earlier[i]).lands_in(g.size);
            assert(writes[i].lands_in(g.size));
        }
        if writes.last().lands_in(g.size) {
            assert(writes[writes.len() - 1].lands_in(g.size));
        }
        if any_lands(g.size, writes) {
            let i = choose|i: int| 0 <= i < writes.len() && (#[trigger] writes[i]).lands_in(g.size);
            if i < earlier.len() {
                assert(earlier[i].lands_in(g.size));
            }
        }
    }
}

} // verus!
