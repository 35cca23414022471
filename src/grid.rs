//! The terrain grid: one category per cell, stored row by row.
//!
//! Cell `(x, y)` of a `width` x `height` map sits at index `y * width + x`;
//! index `k` holds cell `(k % width, k / width)`.
use vstd::prelude::*;
use vstd::arithmetic::div_mod::lemma_fundamental_div_mod_converse;
use crate::island::{cell_category, cell_category_of, centred, centred_offset, MapDimensions};
use crate::terrain::TerrainCategory;

verus! {

/// Why a grid could not be built.
#[derive(Clone, Copy, Debug, PartialEq, Eq, Structural)]
pub enum TerrainError {
    /// The width or the height is zero.
    InvalidDimensions,
    /// The number of noise samples differs from the number of cells.
    SampleCountMismatch,
}

/// The centred offsets of the cell at index `k`.
pub open spec fn offset_at(dims: MapDimensions, k: int) -> (int, int) {
    (centred(k % dims.width as int, dims.width as int), centred(k / dims.width as int, dims.height as int))
}

/// `v` lists the centred offsets of every cell of `dims`, row by row.
pub open spec fn offsets_match(dims: MapDimensions, v: Seq<(i64, i64)>) -> bool {
    &&& v.len() == dims.cell_count()
    &&& forall|k: int| 0 <= k < v.len() ==> ((#[trigger] v[k]).0 as int, v[k].1 as int) == offset_at(dims, k)
}

/// The categories of every cell of `dims`, row by row, where `samples[k]` is
/// the noise sample (in millionths) of the cell at index `k`.
pub open spec fn grid_of(dims: MapDimensions, samples: Seq<i64>) -> Seq<TerrainCategory> {
    Seq::new(
        dims.cell_count(),
        |k: int| cell_category_of(samples[k] as int, offset_at(dims, k).0, offset_at(dims, k).1),
    )
}

/// The centred offsets `(x - width / 2, y - height / 2)` of every cell, row by
/// row: the points at which the noise field is sampled, divided by
/// `NOISE_DIVISOR`.
pub fn cell_offsets(dims: MapDimensions) -> (r: Result<Vec<(i64, i64)>, TerrainError>)
    ensures
        r is Ok <==> dims.valid(),
        !dims.valid() ==> r == Err::<Vec<(i64, i64)>, TerrainError>(TerrainError::InvalidDimensions),
        r matches Ok(v) ==> offsets_match(dims, v@),
{
    if !dims.is_valid() {
        return Err(TerrainError::InvalidDimensions);
    }
    let w = dims.width;
    let h = dims.height;
    let mut v: Vec<(i64, i64)> = Vec::new();
    let mut y: u32 = 0;
    while y < h
        invariant
            w == dims.width,
            h == dims.height,
            w > 0,
            y <= h,
            v@.len() == y * w,
            forall|k: int| 0 <= k < v@.len() ==> ((#[trigger] v@[k]).0 as int, v@[k].1 as int) == offset_at(dims, k),
        decreases h - y,
    {
        let hy = centred_offset(y, h);
        let mut x: u32 = 0;
        while x < w
            invariant
                w == dims.width,
                h == dims.height,
                w > 0,
                y < h,
                x <= w,
                v@.len() == y * w + x,
                hy as int == centred(y as int, h as int),
                forall|k: int| 0 <= k < v@.len() ==> ((#[trigger] v@[k]).0 as int, v@[k].1 as int) == offset_at(dims, k),
            decreases w - x,
        {
            proof {
                lemma_fundamental_div_mod_converse(y * w + x, w as int, y as int, x as int);
            }
            let hx = centred_offset(x, w);
            v.push((hx, hy));
            x = x + 1;
        }
        assert(v@.len() == (y + 1) * w) by (nonlinear_arith)
            requires
                v@.len() == y * w + w,
        ;
        y = y + 1;
    }
    assert(v@.len() == dims.cell_count()) by (nonlinear_arith)
        requires
            v@.len() == h * w,
            w == dims.width,
            h == dims.height,
    ;
    Ok(v)
}

/// A finished terrain map: `width * height` categories, row by row.
#[derive(Debug)]
pub struct TerrainGrid {
    width: u32,
    height: u32,
    cells: Vec<TerrainCategory>,
}

impl TerrainGrid {
    /// Number of columns.
    pub closed spec fn spec_width(&self) -> nat {
        self.width as nat
    }

    /// Number of rows.
    pub closed spec fn spec_height(&self) -> nat {
        self.height as nat
    }

    /// The categories, row by row.
    pub closed spec fn cells(&self) -> Seq<TerrainCategory> {
        self.cells@
    }

    /// Both extents are positive and there is one category per cell.
    pub closed spec fn wf(&self) -> bool {
        &&& self.width > 0
        &&& self.height > 0
        &&& self.cells@.len() == self.width * self.height
    }

    /// The category of cell `(x, y)`.
    pub open spec fn at(&self, x: int, y: int) -> TerrainCategory {
        self.cells()[y * self.spec_width() + x]
    }

    /// Number of columns.
    pub fn width(&self) -> (r: u32)
        ensures
            r as nat == self.spec_width(),
    {
        self.width
    }

    /// Number of rows.
    pub fn height(&self) -> (r: u32)
        ensures
            r as nat == self.spec_height(),
    {
        self.height
    }

    /// Number of cells.
    pub fn len(&self) -> (r: usize)
        ensures
            r == self.cells().len(),
    {
        self.cells.len()
    }

    /// The categories, row by row.
    pub fn as_slice(&self) -> (r: &[TerrainCategory])
        ensures
            r@ == self.cells(),
    {
        self.cells.as_slice()
    }

    /// The category of cell `(x, y)`, or `None` outside the map.
    pub fn get(&self, x: u32, y: u32) -> (r: Option<TerrainCategory>)
        requires
            self.wf(),
        ensures
            x < self.spec_width() && y < self.spec_height() ==> r == Some(self.at(x as int, y as int)),
            !(x < self.spec_width() && y < self.spec_height()) ==> r is None,
    {
        if x >= self.width || y >= self.height {
            return None;
        }
        let n_cells = self.cells.len();
        assert(y * self.width + x < self.width * self.height) by (nonlinear_arith)
            requires
                x < self.width,
                y < self.height,
        ;
        assert(y * self.width <= y * self.width + x < n_cells);
        let k = y as usize * self.width as usize + x as usize;
        Some(self.cells[k])
    }
}

/// Builds the grid of `dims` from one noise sample per cell, row by row, each
/// in millionths: `samples[k]` is the noise field's value at the offsets of
/// cell `k` divided by `NOISE_DIVISOR`.
pub fn terrain_grid(dims: MapDimensions, samples: &Vec<i64>) -> (r: Result<TerrainGrid, TerrainError>)
    ensures
        r is Ok <==> dims.valid() && samples@.len() == dims.cell_count(),
        r == Err::<TerrainGrid, TerrainError>(TerrainError::InvalidDimensions) <==> !dims.valid(),
        r == Err::<TerrainGrid, TerrainError>(TerrainError::SampleCountMismatch) <==> dims.valid()
            && samples@.len() != dims.cell_count(),
        r matches Ok(g) ==> {
            &&& g.wf()
            &&& g.spec_width() == dims.width
            &&& g.spec_height() == dims.height
            &&& g.cells() == grid_of(dims, samples@)
        },
{
    let offsets = match cell_offsets(dims) {
        Ok(v) => v,
        Err(e) => {
            return Err(e);
        },
    };
    if samples.len() != offsets.len() {
        return Err(TerrainError::SampleCountMismatch);
    }
    let n = samples.len();
    let mut cells: Vec<TerrainCategory> = Vec::new();
    let mut k: usize = 0;
    while k < n
        invariant
            n == samples@.len(),
            offsets_match(dims, offsets@),
            offsets@.len() == n,
            k <= n,
            cells@.len() == k,
            forall|j: int| 0 <= j < k ==> #[trigger] cells@[j] == grid_of(dims, samples@)[j],
        decreases n - k,
    {
        let (hx, hy) = offsets[k];
        let c = cell_category(samples[k], hx, hy);
        assert(((offsets@[k as int]).0 as int, offsets@[k as int].1 as int) == offset_at(dims, k as int));
        cells.push(c);
        k = k + 1;
    }
    assert(cells@ =~= grid_of(dims, samples@));
    Ok(TerrainGrid { width: dims.width, height: dims.height, cells })
}

} // verus!
