//! Properties of the generator, stated over the specification functions that
//! the executable contracts use.
use vstd::prelude::*;
use vstd::arithmetic::div_mod::{
    lemma_div_is_ordered, lemma_div_pos_is_pos, lemma_fundamental_div_mod,
    lemma_fundamental_div_mod_converse, lemma_mod_bound,
};
use crate::grid::{grid_of, offset_at};
use crate::island::{cell_category_of, centred, mask_of, ring, terrain_value_of, MapDimensions, ISLAND_RADIUS};
use crate::terrain::{category_of, MICROS_PER_UNIT};

verus! {

/// The grid depends on nothing but the dimensions and the samples: equal
/// sample lists give equal grids, and two lists that agree at a cell give that
/// cell the same category whatever they hold elsewhere.
pub proof fn lemma_grid_deterministic(dims: MapDimensions, s1: Seq<i64>, s2: Seq<i64>)
    requires
        dims.valid(),
        s1.len() == dims.cell_count(),
        s2.len() == dims.cell_count(),
    ensures
        s1 == s2 ==> grid_of(dims, s1) == grid_of(dims, s2),
        forall|k: int|
            0 <= k < dims.cell_count() && s1[k] == s2[k] ==> #[trigger] grid_of(dims, s1)[k] == grid_of(
                dims,
                s2,
            )[k],
{
}

/// Every cell `(x, y)` of the map has exactly one entry in the grid, at index
/// `y * width + x`, and that entry is the category of its own sample at its
/// own centred offsets; every index in turn is the entry of the cell
/// `(k % width, k / width)`, and the grid has `width * height` entries.
pub proof fn lemma_grid_covers_cells(dims: MapDimensions, samples: Seq<i64>)
    requires
        dims.valid(),
        samples.len() == dims.cell_count(),
    ensures
        grid_of(dims, samples).len() == dims.width * dims.height,
        forall|x: int, y: int|
            0 <= x < dims.width && 0 <= y < dims.height ==> {
                &&& 0 <= #[trigger] (y * dims.width + x) < dims.cell_count()
                &&& grid_of(dims, samples)[y * dims.width + x] == cell_category_of(
                    samples[y * dims.width + x] as int,
                    centred(x, dims.width as int),
                    centred(y, dims.height as int),
                )
            },
        forall|x1: int, y1: int, x2: int, y2: int|
            0 <= x1 < dims.width && 0 <= y1 < dims.height && 0 <= x2 < dims.width && 0 <= y2
                < dims.height && #[trigger] (y1 * dims.width + x1) == #[trigger] (y2 * dims.width
                + x2) ==> x1 == x2 && y1 == y2,
        forall|k: int|
            0 <= k < dims.cell_count() ==> {
                &&& 0 <= #[trigger] (k % (dims.width as int)) < dims.width
                &&& 0 <= k / (dims.width as int) < dims.height
                &&& (k / (dims.width as int)) * dims.width + k % (dims.width as int) == k
            },
{
    let w = dims.width as int;
    let h = dims.height as int;
    assert forall|x: int, y: int| 0 <= x < w && 0 <= y < h implies {
        &&& 0 <= #[trigger] (y * w + x) < dims.cell_count()
        &&& grid_of(dims, samples)[y * w + x] == cell_category_of(
            samples[y * w + x] as int,
            centred(x, w),
            centred(y, h),
        )
    } by {
        assert(0 <= y * w + x < w * h) by (nonlinear_arith)
            requires
                0 <= x < w,
                0 <= y < h,
        ;
        lemma_fundamental_div_mod_converse(y * w + x, w, y, x);
        assert(offset_at(dims, y * w + x) == (centred(x, w), centred(y, h)));
    }
    assert forall|x1: int, y1: int, x2: int, y2: int|
        0 <= x1 < w && 0 <= y1 < h && 0 <= x2 < w && 0 <= y2 < h && #[trigger] (y1 * w + x1)
            == #[trigger] (y2 * w + x2) implies x1 == x2 && y1 == y2 by {
        lemma_fundamental_div_mod_converse(y1 * w + x1, w, y1, x1);
        lemma_fundamental_div_mod_converse(y2 * w + x2, w, y2, x2);
    }
    assert forall|k: int| 0 <= k < dims.cell_count() implies {
        &&& 0 <= #[trigger] (k % w) < w
        &&& 0 <= k / w < h
        &&& (k / w) * w + k % w == k
    } by {
        lemma_fundamental_div_mod(k, w);
        lemma_mod_bound(k, w);
        lemma_div_pos_is_pos(k, w);
        lemma_div_is_ordered(k, w * h - 1, w);
        assert(w * h - 1 == (h - 1) * w + (w - 1)) by (nonlinear_arith);
        lemma_fundamental_div_mod_converse(w * h - 1, w, h - 1, w - 1);
    }
}

/// A larger terrain value never gives a lower category: the category's rank
/// does not fall as the value crosses 0, 0.4, 0.6, 0.7 and 0.9.
pub proof fn lemma_category_monotone(n1: int, n2: int)
    requires
        n1 <= n2,
    ensures
        category_of(n1).spec_rank() <= category_of(n2).spec_rank(),
{
}

/// At a fixed cell, a larger noise sample never gives a lower category.
pub proof fn lemma_cell_category_monotone(s1: int, s2: int, hx: int, hy: int)
    requires
        s1 <= s2,
    ensures
        cell_category_of(s1, hx, hy).spec_rank() <= cell_category_of(s2, hx, hy).spec_rank(),
{
    lemma_category_monotone(terrain_value_of(s1, hx, hy), terrain_value_of(s2, hx, hy));
}

/// On a square map the centre cell `(width / 2, height / 2)` has offsets
/// `(0, 0)`; the mask there is defined and at its largest, `1 + b`, so the
/// terrain value there is the sample plus `b`.
pub proof fn lemma_square_centre(dims: MapDimensions, sample: int)
    requires
        dims.valid(),
        dims.width == dims.height,
    ensures
        0 <= (dims.height / 2) * dims.width + dims.width / 2 < dims.cell_count(),
        offset_at(dims, (dims.height / 2) * dims.width + dims.width / 2) == (0int, 0int),
        mask_of(0, 0) == MICROS_PER_UNIT + ISLAND_RADIUS,
        forall|hx: int, hy: int| #[trigger] mask_of(hx, hy) <= mask_of(0, 0),
        terrain_value_of(sample, 0, 0) == sample + ISLAND_RADIUS,
{
    let w = dims.width as int;
    let h = dims.height as int;
    let x = w / 2;
    let y = h / 2;
    assert(0 <= y * w + x < w * h) by (nonlinear_arith)
        requires
            0 <= x < w,
            0 <= y < h,
    ;
    lemma_fundamental_div_mod_converse(y * w + x, w, y, x);
    assert forall|hx: int, hy: int| #[trigger] mask_of(hx, hy) <= mask_of(0, 0) by {
        let d = ring(hx, hy);
        assert(d >= 0);
        assert((ISLAND_RADIUS as int) * d / 60 >= 0) by (nonlinear_arith)
            requires
                d >= 0,
                ISLAND_RADIUS > 0,
        ;
    }
}

} // verus!
