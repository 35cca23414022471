//! Map geometry and the island mask.
//!
//! A cell `(x, y)` is placed relative to the grid centre `(width / 2,
//! height / 2)`. The mask is `v / v + (b - b * v)` with `v` the larger of the
//! two centred distances divided by `MASK_DIVISOR` and `b` the island radius
//! parameter 1.2; its first term is 1 for every `v > 0` and is taken as 1 at
//! the centre too, so the mask is `1 + b - b * v` everywhere. In millionths
//! that is an exact integer for every cell.
use vstd::prelude::*;
use crate::terrain::{category_of, classify, TerrainCategory, MICROS_PER_UNIT};

verus! {

/// Centred coordinates are divided by this before the mask reads them.
pub const MASK_DIVISOR: i128 = 60;

/// Centred coordinates are divided by this before the noise field is sampled.
pub const NOISE_DIVISOR: i64 = 15;

/// The island radius parameter `b` (1.2), in millionths.
pub const ISLAND_RADIUS: i128 = 1_200_000;

/// What the mask loses per unit of centred distance: `b / MASK_DIVISOR`.
pub const MASK_STEP: i128 = 20_000;

/// Size of a map in tiles.
#[derive(Clone, Copy, Debug, PartialEq, Eq, Structural)]
pub struct MapDimensions {
    pub width: u32,
    pub height: u32,
}

impl MapDimensions {
    /// Both extents are positive.
    pub open spec fn valid(self) -> bool {
        self.width > 0 && self.height > 0
    }

    /// Number of cells, `width * height`.
    pub open spec fn cell_count(self) -> nat {
        (self.width * self.height) as nat
    }

    /// Whether both extents are positive.
    pub fn is_valid(&self) -> (r: bool)
        ensures
            r == self.valid(),
    {
        self.width > 0 && self.height > 0
    }
}

/// Offset of coordinate `i` from the centre `extent / 2` of its axis.
pub open spec fn centred(i: int, extent: int) -> int {
    i - extent / 2
}

/// Absolute value.
pub open spec fn abs(a: int) -> int {
    if a < 0 { -a } else { a }
}

/// The larger of the two absolute centred offsets.
pub open spec fn ring(hx: int, hy: int) -> int {
    if abs(hx) >= abs(hy) { abs(hx) } else { abs(hy) }
}

/// The island mask at centred offsets `(hx, hy)`, in millionths:
/// `1 + b - b * v` with `v = ring(hx, hy) / MASK_DIVISOR`.
pub open spec fn mask_of(hx: int, hy: int) -> int {
    MICROS_PER_UNIT + ISLAND_RADIUS - (ISLAND_RADIUS as int) * ring(hx, hy) / (MASK_DIVISOR as int)
}

/// The terrain value of a cell: its noise sample minus `1 - mask`.
pub open spec fn terrain_value_of(sample: int, hx: int, hy: int) -> int {
    sample - (MICROS_PER_UNIT - mask_of(hx, hy))
}

/// The category of a cell with the given noise sample and centred offsets.
pub open spec fn cell_category_of(sample: int, hx: int, hy: int) -> TerrainCategory {
    category_of(terrain_value_of(sample, hx, hy))
}

/// The offset of coordinate `i` from the centre of an axis of `extent` cells.
pub fn centred_offset(i: u32, extent: u32) -> (r: i64)
    ensures
        r as int == centred(i as int, extent as int),
{
    i as i64 - (extent / 2) as i64
}

/// The larger of `|hx|` and `|hy|`.
fn ring_distance(hx: i64, hy: i64) -> (r: i128)
    ensures
        r as int == ring(hx as int, hy as int),
        0 <= r <= 0x8000_0000_0000_0000,
{
    let ax: i128 = if hx < 0 { -(hx as i128) } else { hx as i128 };
    let ay: i128 = if hy < 0 { -(hy as i128) } else { hy as i128 };
    if ax >= ay { ax } else { ay }
}

/// The island mask at centred offsets `(hx, hy)`, in millionths.
pub fn island_mask(hx: i64, hy: i64) -> (r: i128)
    ensures
        r as int == mask_of(hx as int, hy as int),
{
    let d = ring_distance(hx, hy);
    assert((ISLAND_RADIUS as int) * d / (MASK_DIVISOR as int) == MASK_STEP * d) by (nonlinear_arith)
        requires
            ISLAND_RADIUS == 60 * MASK_STEP,
            MASK_DIVISOR == 60,
    ;
    MICROS_PER_UNIT + ISLAND_RADIUS - MASK_STEP * d
}

/// The terrain value of a cell, in millionths: the noise sample `sample`
/// (in millionths) minus `1 - mask`.
pub fn terrain_value(sample: i64, hx: i64, hy: i64) -> (r: i128)
    ensures
        r as int == terrain_value_of(sample as int, hx as int, hy as int),
{
    let mask = island_mask(hx, hy);
    sample as i128 - (MICROS_PER_UNIT - mask)
}

/// The category of a cell with noise sample `sample` (in millionths) at
/// centred offsets `(hx, hy)`.
pub fn cell_category(sample: i64, hx: i64, hy: i64) -> (r: TerrainCategory)
    ensures
        r == cell_category_of(sample as int, hx as int, hy as int),
{
    classify(terrain_value(sample, hx, hy))
}

} // verus!
