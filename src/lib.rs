//! Procedural island terrain: an island mask and a per-cell classification of
//! noise samples into terrain categories, over integer fixed-point values.
pub mod grid;
pub mod island;
pub mod laws;
pub mod terrain;

pub use grid::{cell_offsets, terrain_grid, TerrainError, TerrainGrid};
pub use island::{
    cell_category, centred_offset, island_mask, terrain_value, MapDimensions, ISLAND_RADIUS, MASK_DIVISOR,
    NOISE_DIVISOR,
};
pub use terrain::{classify, TerrainCategory, MICROS_PER_UNIT};
