use vstd::prelude::*;
use crate::error::MapError;
use crate::grid::MapSize;
use crate::indexer::{MapIndexer, TileGrid};
use crate::loading::{AssetStatus, Initializer, LoadPhase, LoadState, LoadStep, Loader};

verus! {

/// Mathematical model of a tile map: its tile buffer and its load phase.
pub struct TileMapModel {
    pub grid: TileGrid,
    pub phase: LoadPhase,
}

impl TileMapModel {
    /// The buffer holds one cell per grid position, and the load phase is one
    /// that occurs.
    pub open spec fn wf(self) -> bool {
        self.grid.wf() && self.phase.wf()
    }

    /// A map that has just been built.
    pub open spec fn fresh(size: MapSize, with_initializer: bool) -> TileMapModel {
        TileMapModel { grid: TileGrid::blank(size), phase: LoadPhase::start(with_initializer) }
    }

    /// Coordinate queries and rendering are meaningful.
    pub open spec fn ready(self) -> bool {
        self.phase.state == LoadState::Ready
    }
}

/// A tile map: a grid of tile indices with the state of its backing
/// resources. Its dimensions are fixed when it is built; its tile indices
/// stay editable through the indexer for as long as it lives.
#[derive(Debug)]
pub struct TileMap {
    tiles: MapIndexer,
    loader: Loader,
}

impl View for TileMap {
    type V = TileMapModel;

    closed spec fn view(&self) -> TileMapModel {
        TileMapModel { grid: self.tiles@, phase: self.loader@ }
    }
}

impl TileMap {
    /// Builds a map of the given size, every tile index zero, not yet loaded.
    /// `with_initializer` says whether the host holds an initializer to run
    /// once the backing resources are loaded. Fails with `Configuration`
    /// exactly when a dimension is zero or the cell count exceeds what the
    /// machine can address; nothing is allocated then.
    pub fn new(size: MapSize, with_initializer: bool) -> (r: Result<TileMap, MapError>)
        ensures
            r is Ok <==> size.valid() && size.cell_count() <= usize::MAX,
            r matches Ok(map) ==> map@ == TileMapModel::fresh(size, with_initializer),
            r matches Err(e) ==> e == MapError::Configuration,
    {
        match MapIndexer::new(size) {
            Ok(tiles) => Ok(TileMap { tiles, loader: Loader::new(with_initializer) }),
            Err(e) => Err(e),
        }
    }

    /// Dimensions of the grid.
    pub fn size(&self) -> (size: MapSize)
        ensures
            size == self@.grid.size,
            self@.wf(),
    {
        proof {
            use_type_invariant(&self.loader);
        }
        self.tiles.size()
    }

    /// Whether the backing resources are loaded and the initializer, if
    /// any, has run.
    pub fn ready(&self) -> (ready: bool)
        ensures
            ready == self@.ready(),
    {
        self.loader.phase().state == LoadState::Ready
    }

    /// Current load state.
    pub fn load_state(&self) -> (state: LoadState)
        ensures
            state == self@.phase.state,
    {
        self.loader.phase().state
    }

    /// Progress of the initializer.
    pub fn initializer(&self) -> (initializer: Initializer)
        ensures
            initializer == self@.phase.initializer,
            self@.wf(),
    {
        proof {
            use_type_invariant(&self.tiles);
        }
        self.loader.phase().initializer
    }

    /// Gate for coordinate queries and rendering: `NotReady` unless the map
    /// is ready. A map whose resources failed to load is never ready.
    pub fn require_ready(&self) -> (r: Result<(), MapError>)
        ensures
            r is Ok <==> self@.ready(),
            r matches Err(e) ==> e == MapError::NotReady,
    {
        if self.loader.phase().state == LoadState::Ready {
            Ok(())
        } else {
            Err(MapError::NotReady)
        }
    }

    /// Polls the load state with what the host found out about the atlas and
    /// the tile-index texture. The map moves on as `LoadPhase::poll` says;
    /// its tiles are untouched. The result names the state reached and what
    /// the host has to do; a map that has failed reports `AssetLoadFailure`,
    /// on this poll and on every later one.
    pub fn check_readiness(&mut self, atlas: AssetStatus, tiles: AssetStatus) -> (r: Result<
        LoadStep,
        MapError,
    >)
        ensures
            old(self)@.wf(),
            final(self)@.wf(),
            final(self)@.grid == old(self)@.grid,
            final(self)@.phase == old(self)@.phase.poll(atlas, tiles),
            r is Err <==> final(self)@.phase.state == LoadState::Failed,
            r matches Err(e) ==> e == MapError::AssetLoadFailure,
            r matches Ok(step) ==> step.state == final(self)@.phase.state && step.action == old(
                self,
            )@.phase.poll_action(atlas, tiles),
    {
        proof {
            use_type_invariant(&self.tiles);
        }
        let action = self.loader.poll(atlas, tiles);
        let state = self.loader.phase().state;
        if state == LoadState::Failed {
            Err(MapError::AssetLoadFailure)
        } else {
            Ok(LoadStep { state, action })
        }
    }

    /// Records that the initializer has returned. A map that waited for it
    /// becomes ready; in any other phase nothing changes. Returns the state
    /// the map is in afterwards.
    pub fn complete_initialization(&mut self) -> (state: LoadState)
        ensures
            old(self)@.wf(),
            final(self)@.wf(),
            final(self)@.grid == old(self)@.grid,
            final(self)@.phase == old(self)@.phase.initializer_finished(),
            state == final(self)@.phase.state,
    {
        proof {
            use_type_invariant(&self.tiles);
        }
        self.loader.initializer_finished();
        self.loader.phase().state
    }

    /// Opens an edit session: exclusive access to the tile indices for as
    /// long as the borrow lasts. What the session leaves in the indexer is the
    /// map's tile buffer afterwards; the load phase is untouched.
    pub fn indexer(&mut self) -> (indexer: &mut MapIndexer)
        ensures
            indexer@ == old(self)@.grid,
            indexer@.wf(),
            final(self)@.grid == final(indexer)@,
            final(self)@.phase == old(self)@.phase,
    {
        proof {
            use_type_invariant(&self.tiles);
        }
        &mut self.tiles
    }

    /// Read access to the tile indices.
    pub fn tiles(&self) -> (tiles: &MapIndexer)
        ensures
            tiles@ == self@.grid,
    {
        &self.tiles
    }

    /// Whether tile edits are waiting to be uploaded. The renderer asks once
    /// per frame.
    pub fn is_dirty(&self) -> (dirty: bool)
        ensures
            dirty == self@.grid.dirty,
            dirty <==> self@.grid.uploads_due() == 1,
    {
        self.tiles.is_dirty()
    }

    /// Records that the renderer has uploaded the tile buffer. Tiles and load
    /// phase are untouched.
    pub fn clear_dirty(&mut self)
        ensures
            final(self)@.grid == old(self)@.grid.uploaded(),
            final(self)@.phase == old(self)@.phase,
    {
        self.tiles.clear_dirty();
    }
}

impl Clone for TileMap {
    /// A map of its own with the same tiles and load phase.
    fn clone(&self) -> (copy: TileMap)
        ensures
            copy@ == self@,
    {
        TileMap { tiles: self.tiles.clone(), loader: self.loader.clone() }
    }
}

} // verus!
