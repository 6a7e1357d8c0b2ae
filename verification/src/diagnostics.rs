//! Integer side of the water diagnostics: which slots of a particle
//! readback hold water, the grid of surface-height bins over the cup, and
//! the span of occupied height bands of the hydrostatic estimate.
use vstd::prelude::*;

verus! {

/// Surface-height bins along each horizontal axis of the cup.
pub const SURFACE_BINS: usize = 16;

/// Height bands of the hydrostatic pressure estimate.
pub const PRESSURE_BANDS: usize = 6;

/// Floats per particle in the particle readback.
pub const PARTICLE_STRIDE: usize = 8;

/// Floats per particle in the affine readback.
pub const AFFINE_STRIDE: usize = 12;

/// Whether readbacks of `data_len` particle floats and `affine_len` affine
/// floats hold every particle slot below `end`.
pub open spec fn readback_covers(data_len: int, affine_len: int, end: int) -> bool {
    data_len >= end * PARTICLE_STRIDE && affine_len >= end * AFFINE_STRIDE
}

/// The particle slots holding water, `num_bed .. num_bed + num_water` (the
/// bed particles come first), when both readbacks cover them; `None` when
/// a readback is too short.
pub fn water_readback_range(data_len: usize, affine_len: usize, num_bed: u32, num_water: u32) -> (r:
    Option<(usize, usize)>)
    requires
        (num_bed + num_water) * AFFINE_STRIDE <= usize::MAX,
    ensures
        match r {
            Some((start, end)) => {
                &&& start == num_bed
                &&& end == num_bed + num_water
                &&& readback_covers(data_len as int, affine_len as int, end as int)
            },
            None => !readback_covers(data_len as int, affine_len as int, num_bed + num_water),
        },
{
    let start = num_bed as usize;
    let end = start + num_water as usize;
    if data_len < end * PARTICLE_STRIDE || affine_len < end * AFFINE_STRIDE {
        None
    } else {
        Some((start, end))
    }
}

/// Bin of surface column `(bx, bz)`: `bx` runs fastest.
pub open spec fn surface_bin_spec(bx: int, bz: int) -> int {
    bx + bz * SURFACE_BINS
}

/// The surface bin of column `(bx, bz)`.
pub fn surface_bin(bx: usize, bz: usize) -> (r: usize)
    requires
        bx < SURFACE_BINS,
        bz < SURFACE_BINS,
    ensures
        r == surface_bin_spec(bx as int, bz as int),
        r < SURFACE_BINS * SURFACE_BINS,
{
    bx + bz * SURFACE_BINS
}

/// The column `(bx, bz)` of surface bin `bin`.
pub fn surface_bin_coords(bin: usize) -> (r: (usize, usize))
    requires
        bin < SURFACE_BINS * SURFACE_BINS,
    ensures
        r.0 == bin % SURFACE_BINS,
        r.1 == bin / SURFACE_BINS,
        r.0 < SURFACE_BINS,
        r.1 < SURFACE_BINS,
{
    (bin % SURFACE_BINS, bin / SURFACE_BINS)
}

/// Columns and bins correspond one to one: a column's bin gives the column
/// back, and every bin is the bin of its column.
pub proof fn lemma_surface_bins_round_trip(bx: int, bz: int, bin: int)
    ensures
        0 <= bx < SURFACE_BINS && 0 <= bz < SURFACE_BINS ==> ({
            let b = surface_bin_spec(bx, bz);
            &&& 0 <= b < SURFACE_BINS * SURFACE_BINS
            &&& b % SURFACE_BINS as int == bx
            &&& b / SURFACE_BINS as int == bz
        }),
        0 <= bin < SURFACE_BINS * SURFACE_BINS ==> surface_bin_spec(
            bin % SURFACE_BINS as int,
            bin / SURFACE_BINS as int,
        ) == bin,
{
    if 0 <= bx < 16 && 0 <= bz < 16 {
        let b = bx + bz * 16;
        assert(b % 16 == bx && b / 16 == bz) by (nonlinear_arith)
            requires
                0 <= bx < 16,
                0 <= bz < 16,
                b == bx + bz * 16,
        ;
    }
    if 0 <= bin < 256 {
        assert(bin % 16 + (bin / 16) * 16 == bin) by (nonlinear_arith);
    }
}

/// The lowest and the highest occupied band of a band histogram, `None`
/// when no band holds a sample.
pub fn occupied_band_span(counts: &[u32]) -> (r: Option<(usize, usize)>)
    ensures
        match r {
            Some((lo, hi)) => {
                &&& lo <= hi < counts@.len()
                &&& counts@[lo as int] > 0
                &&& counts@[hi as int] > 0
                &&& forall|i: int| 0 <= i < lo ==> counts@[i] == 0
                &&& forall|i: int| hi < i < counts@.len() ==> counts@[i] == 0
            },
            None => forall|i: int| 0 <= i < counts@.len() ==> counts@[i] == 0,
        },
{
    let n = counts.len();
    let mut lo: usize = 0;
    while lo < n && counts[lo] == 0
        invariant
            lo <= n,
            n == counts@.len(),
            forall|i: int| 0 <= i < lo ==> counts@[i] == 0,
        decreases n - lo,
    {
        lo = lo + 1;
    }
    if lo == n {
        return None;
    }
    let mut hi: usize = n - 1;
    while counts[hi] == 0
        invariant
            lo <= hi < n,
            n == counts@.len(),
            counts@[lo as int] > 0,
            forall|i: int| hi < i < n ==> counts@[i] == 0,
        decreases hi,
    {
        hi = hi - 1;
    }
    Some((lo, hi))
}

} // verus!
