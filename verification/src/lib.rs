//! Verified core of a data-texture tile map: the tile-index buffer with its
//! bounds-checked indexer, the loading state machine that gates readiness, and
//! the change tracking of per-corner attributes.

pub mod attributes;
pub mod error;
pub mod grid;
pub mod indexer;
pub mod loading;
pub mod tilemap;

pub use attributes::{CornerColor, MapAttributes};
pub use error::MapError;
pub use grid::MapSize;
pub use indexer::MapIndexer;
pub use loading::{AssetStatus, Initializer, LoadAction, LoadPhase, LoadState, LoadStep, Loader};
pub use tilemap::TileMap;
