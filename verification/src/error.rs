use vstd::prelude::*;

verus! {

/// Everything that an operation on a tile map can report.
#[derive(Clone, Copy, Debug, PartialEq, Eq, Structural)]
pub enum MapError {
    /// The requested grid cannot back a map: a dimension is zero, or the
    /// number of cells does not fit the address space.
    Configuration,
    /// A tile coordinate lies outside the grid.
    OutOfBoundsAccess,
    /// The map's backing resources have not finished loading yet.
    NotReady,
    /// A backing resource failed to load; the map stays inert.
    AssetLoadFailure,
}

} // verus!
