//! Terrain categories and the threshold table that assigns them.
//!
//! Terrain values are fixed-point numbers in millionths: the value `0.9` is
//! written `900_000`.
use vstd::prelude::*;

verus! {

/// One unit of a terrain value, in millionths.
pub const MICROS_PER_UNIT: i128 = 1_000_000;

/// Above this value a cell is a peak (0.9).
pub const PEAK_THRESHOLD: i128 = 900_000;

/// Above this value a cell is upper rock (0.7).
pub const ROCK2_THRESHOLD: i128 = 700_000;

/// Above this value a cell is lower rock (0.6).
pub const ROCK1_THRESHOLD: i128 = 600_000;

/// Above this value a cell is forest (0.4).
pub const FOREST_THRESHOLD: i128 = 400_000;

/// The discrete terrain of one cell.
#[derive(Clone, Copy, Debug, PartialEq, Eq, Structural)]
pub enum TerrainCategory {
    Water,
    Grass,
    Forest,
    Rock1,
    Rock2,
    Peak,
}

/// The category of a terrain value `n` (in millionths): the first row of the
/// table, from the highest threshold down, whose strict bound `n` exceeds.
/// A value that is not positive is water.
pub open spec fn category_of(n: int) -> TerrainCategory {
    if n > PEAK_THRESHOLD {
        TerrainCategory::Peak
    } else if n > ROCK2_THRESHOLD {
        TerrainCategory::Rock2
    } else if n > ROCK1_THRESHOLD {
        TerrainCategory::Rock1
    } else if n > FOREST_THRESHOLD {
        TerrainCategory::Forest
    } else if n > 0 {
        TerrainCategory::Grass
    } else {
        TerrainCategory::Water
    }
}

impl TerrainCategory {
    /// Position of the category in the order
    /// Water < Grass < Forest < Rock1 < Rock2 < Peak.
    pub open spec fn spec_rank(self) -> nat {
        match self {
            TerrainCategory::Water => 0,
            TerrainCategory::Grass => 1,
            TerrainCategory::Forest => 2,
            TerrainCategory::Rock1 => 3,
            TerrainCategory::Rock2 => 4,
            TerrainCategory::Peak => 5,
        }
    }

    /// Position of the category in the order from water up to peak.
    pub fn rank(&self) -> (r: u8)
        ensures
            r as nat == self.spec_rank(),
    {
        match self {
            TerrainCategory::Water => 0,
            TerrainCategory::Grass => 1,
            TerrainCategory::Forest => 2,
            TerrainCategory::Rock1 => 3,
            TerrainCategory::Rock2 => 4,
            TerrainCategory::Peak => 5,
        }
    }

    /// Whether the cell is land, that is anything but water.
    pub fn is_land(&self) -> (r: bool)
        ensures
            r == (*self != TerrainCategory::Water),
    {
        !matches!(self, TerrainCategory::Water)
    }
}

/// Classifies a terrain value given in millionths.
pub fn classify(n: i128) -> (r: TerrainCategory)
    ensures
        r == category_of(n as int),
{
    if n > PEAK_THRESHOLD {
        TerrainCategory::Peak
    } else if n > ROCK2_THRESHOLD {
        TerrainCategory::Rock2
    } else if n > ROCK1_THRESHOLD {
        TerrainCategory::Rock1
    } else if n > FOREST_THRESHOLD {
        TerrainCategory::Forest
    } else if n > 0 {
        TerrainCategory::Grass
    } else {
        TerrainCategory::Water
    }
}

} // verus!
