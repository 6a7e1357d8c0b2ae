//! Integer side of the coffee bed set-up: the deterministic per-lattice-site
//! seeds its grain sampling is drawn from, the numbering of the lattice sites
//! that become bed particles, the per-cell lookup of supporting particles and
//! the support counts that tell each bed particle how many grid cells lean on
//! it.
use vstd::prelude::*;

use vstd::arithmetic::div_mod::lemma_fundamental_div_mod_converse;
use vstd::wrapping::u64_specs;

use crate::schedule::{total_cells, total_cells_spec};

verus! {

/// Seed of the lattice site `(ix, iy, iz)`: each coordinate, reinterpreted
/// as an unsigned 32-bit value, is multiplied by its own odd constant and the
/// products are combined with exclusive or.
pub open spec fn mix_seed_spec(ix: i32, iy: i32, iz: i32) -> u64 {
    let x = (ix as u32) as u64;
    let y = (iy as u32) as u64;
    let z = (iz as u32) as u64;
    u64_specs::wrapping_mul(x, 0x9e37_79b9_7f4a_7c15) ^ u64_specs::wrapping_mul(
        y,
        0xbf58_476d_1ce4_e5b9,
    ) ^ u64_specs::wrapping_mul(z, 0x94d0_49bb_1331_11eb)
}

pub fn mix_seed(ix: i32, iy: i32, iz: i32) -> (r: u64)
    ensures
        r == mix_seed_spec(ix, iy, iz),
{
    let x = (ix as u32) as u64;
    let y = (iy as u32) as u64;
    let z = (iz as u32) as u64;
    x.wrapping_mul(0x9e37_79b9_7f4a_7c15) ^ y.wrapping_mul(0xbf58_476d_1ce4_e5b9)
        ^ z.wrapping_mul(0x94d0_49bb_1331_11eb)
}

/// The SplitMix64 finaliser applied to `seed` plus the golden-ratio
/// increment, keeping the top 24 bits: the numerator of a uniform sample in
/// `[0, 1)` with denominator `2^24`.
pub open spec fn hash_to_unit_numerator_spec(seed: u64) -> u32 {
    let x0 = u64_specs::wrapping_add(seed, 0x9e37_79b9_7f4a_7c15);
    let x1 = u64_specs::wrapping_mul(x0 ^ (x0 >> 30), 0xbf58_476d_1ce4_e5b9);
    let x2 = u64_specs::wrapping_mul(x1 ^ (x1 >> 27), 0x94d0_49bb_1331_11eb);
    let x3 = x2 ^ (x2 >> 31);
    (x3 >> 40) as u32
}

/// Numerator of the unit sample drawn from `seed`; the sample is this value
/// divided by `2^24`.
pub fn hash_to_unit_numerator(seed: u64) -> (r: u32)
    ensures
        r == hash_to_unit_numerator_spec(seed),
        r < 0x100_0000,
{
    let mut x = seed.wrapping_add(0x9e37_79b9_7f4a_7c15);
    x = (x ^ (x >> 30)).wrapping_mul(0xbf58_476d_1ce4_e5b9);
    x = (x ^ (x >> 27)).wrapping_mul(0x94d0_49bb_1331_11eb);
    x = x ^ (x >> 31);
    assert(x >> 40 < 0x100_0000) by (bit_vector);
    (x >> 40) as u32
}

/// Number of entries of `lookup` equal to `p`.
pub open spec fn count_refs(lookup: Seq<i32>, p: int) -> nat
    decreases lookup.len(),
{
    if lookup.len() == 0 {
        0
    } else {
        count_refs(lookup.drop_last(), p) + if lookup.last() as int == p {
            1nat
        } else {
            0nat
        }
    }
}

proof fn lemma_count_refs_prefix(lookup: Seq<i32>, i: int, p: int)
    requires
        0 <= i < lookup.len(),
    ensures
        count_refs(lookup.subrange(0, i), p) + (if lookup[i] as int == p {
            1int
        } else {
            0int
        }) <= count_refs(lookup, p),
    decreases lookup.len(),
{
    let last = lookup.len() - 1;
    if i < last {
        lemma_count_refs_prefix(lookup.drop_last(), i, p);
        assert(lookup.drop_last().subrange(0, i) =~= lookup.subrange(0, i));
    } else {
        assert(lookup.subrange(0, i) =~= lookup.drop_last());
    }
}

/// For every bed particle, how many grid cells name it as their supporting
/// particle. Entries below zero mark empty cells and entries at or past
/// `num_particles` are ignored. No particle may be named more often than a
/// `u32` count can hold.
pub fn build_support_counts(cell_lookup: &[i32], num_particles: usize) -> (r: Vec<u32>)
    requires
        forall|p: int| 0 <= p < num_particles ==> count_refs(cell_lookup@, p) <= u32::MAX,
    ensures
        r@.len() == num_particles,
        forall|p: int| 0 <= p < num_particles ==> r@[p] == count_refs(cell_lookup@, p),
{
    let mut counts: Vec<u32> = Vec::new();
    let mut k: usize = 0;
    while k < num_particles
        invariant
            k <= num_particles,
            counts@.len() == k,
            forall|p: int| 0 <= p < k ==> counts@[p] == 0,
        decreases num_particles - k,
    {
        counts.push(0);
        k = k + 1;
    }
    let mut i: usize = 0;
    assert(cell_lookup@.subrange(0, 0) =~= Seq::<i32>::empty());
    while i < cell_lookup.len()
        invariant
            i <= cell_lookup@.len(),
            forall|p: int| 0 <= p < num_particles ==> count_refs(cell_lookup@, p) <= u32::MAX,
            counts@.len() == num_particles,
            forall|p: int|
                0 <= p < num_particles ==> counts@[p] == count_refs(
                    cell_lookup@.subrange(0, i as int),
                    p,
                ),
        decreases cell_lookup@.len() - i,
    {
        let entry = cell_lookup[i];
        let ghost pre = cell_lookup@.subrange(0, i as int);
        let ghost next = cell_lookup@.subrange(0, i + 1);
        assert(next.drop_last() =~= pre);
        assert(next.last() == entry);
        if entry >= 0 {
            let idx = entry as usize;
            if idx < counts.len() {
                proof {
                    lemma_count_refs_prefix(cell_lookup@, i as int, idx as int);
                }
                let c = counts[idx];
                counts.set(idx, c + 1);
            }
        }
        i = i + 1;
    }
    assert(cell_lookup@.subrange(0, cell_lookup@.len() as int) =~= cell_lookup@);
    counts
}

// ---------------------------------------------------------------------------
// Grid cells
// ---------------------------------------------------------------------------

/// Position of grid cell `(ix, iy, iz)` in a per-cell array of a grid of
/// `dims` cells: x runs fastest, then y, then z.
pub open spec fn cell_index_spec(dims: [u32; 3], ix: int, iy: int, iz: int) -> int {
    iz * dims[0] * dims[1] + iy * dims[0] + ix
}

/// Whether `(ix, iy, iz)` is a cell of a grid of `dims` cells.
pub open spec fn in_grid(dims: [u32; 3], ix: int, iy: int, iz: int) -> bool {
    0 <= ix < dims[0] && 0 <= iy < dims[1] && 0 <= iz < dims[2]
}

proof fn lemma_cell_index_bounds(dims: [u32; 3], ix: int, iy: int, iz: int)
    requires
        in_grid(dims, ix, iy, iz),
    ensures
        0 <= iz * dims[0] * dims[1],
        0 <= iz * dims[0] <= iz * dims[0] * dims[1],
        0 <= iy * dims[0],
        iz * dims[0] * dims[1] + iy * dims[0] + dims[0] <= total_cells_spec(dims),
        cell_index_spec(dims, ix, iy, iz) == (iz * dims[1] + iy) * dims[0] + ix,
{
    let gx = dims[0] as int;
    let gy = dims[1] as int;
    let gz = dims[2] as int;
    assert(0 <= iz * gx * gy && 0 <= iy * gx && 0 <= iz * gx <= iz * gx * gy) by (nonlinear_arith)
        requires
            0 <= iz,
            0 <= iy < gy,
            0 <= gx,
            0 <= gy,
    ;
    assert(iz * gx * gy + iy * gx + gx <= gx * gy * gz) by (nonlinear_arith)
        requires
            0 <= iz < gz,
            0 <= iy < gy,
            0 <= gx,
    ;
    assert(iz * gx * gy + iy * gx + ix == (iz * gy + iy) * gx + ix) by (nonlinear_arith);
}

/// Different cells of a grid have different positions in a per-cell array,
/// and every position below the cell count belongs to a cell.
pub proof fn lemma_cell_index_is_one_to_one(
    dims: [u32; 3],
    a: (int, int, int),
    b: (int, int, int),
    c: int,
)
    requires
        in_grid(dims, a.0, a.1, a.2),
        in_grid(dims, b.0, b.1, b.2),
    ensures
        0 <= cell_index_spec(dims, a.0, a.1, a.2) < total_cells_spec(dims),
        cell_index_spec(dims, a.0, a.1, a.2) == cell_index_spec(dims, b.0, b.1, b.2) ==> a == b,
        0 <= c < total_cells_spec(dims) ==> ({
            let x = c % (dims[0] as int);
            let y = (c / (dims[0] as int)) % (dims[1] as int);
            let z = c / (dims[0] as int) / (dims[1] as int);
            in_grid(dims, x, y, z) && cell_index_spec(dims, x, y, z) == c
        }),
{
    let gx = dims[0] as int;
    let gy = dims[1] as int;
    let gz = dims[2] as int;
    lemma_cell_index_bounds(dims, a.0, a.1, a.2);
    lemma_cell_index_bounds(dims, b.0, b.1, b.2);
    if cell_index_spec(dims, a.0, a.1, a.2) == cell_index_spec(dims, b.0, b.1, b.2) {
        let ca = cell_index_spec(dims, a.0, a.1, a.2);
        lemma_fundamental_div_mod_converse(ca, gx, a.2 * gy + a.1, a.0);
        lemma_fundamental_div_mod_converse(ca, gx, b.2 * gy + b.1, b.0);
        lemma_fundamental_div_mod_converse(a.2 * gy + a.1, gy, a.2, a.1);
        lemma_fundamental_div_mod_converse(b.2 * gy + b.1, gy, b.2, b.1);
    }
    if 0 <= c < gx * gy * gz {
        assert(gx > 0 && gy > 0 && gz > 0) by (nonlinear_arith)
            requires
                0 <= c < gx * gy * gz,
                gx >= 0,
                gy >= 0,
                gz >= 0,
        ;
        let x = c % gx;
        let q = c / gx;
        let y = q % gy;
        let z = q / gy;
        assert(c == q * gx + x && 0 <= x < gx) by (nonlinear_arith)
            requires
                gx > 0,
                x == c % gx,
                q == c / gx,
        ;
        assert(q == z * gy + y && 0 <= y < gy) by (nonlinear_arith)
            requires
                gy > 0,
                y == q % gy,
                z == q / gy,
        ;
        assert(0 <= z < gz) by (nonlinear_arith)
            requires
                0 <= c < gx * gy * gz,
                c == q * gx + x,
                q == z * gy + y,
                0 <= x < gx,
                0 <= y < gy,
                gx > 0,
                gy > 0,
        ;
        lemma_cell_index_bounds(dims, x, y, z);
    }
}

/// Position of grid cell `(ix, iy, iz)` in the per-cell lookup.
pub fn cell_index(dims: [u32; 3], ix: u32, iy: u32, iz: u32) -> (r: usize)
    requires
        in_grid(dims, ix as int, iy as int, iz as int),
        total_cells_spec(dims) <= u32::MAX,
    ensures
        r == cell_index_spec(dims, ix as int, iy as int, iz as int),
        r < total_cells_spec(dims),
{
    proof {
        lemma_cell_index_bounds(dims, ix as int, iy as int, iz as int);
    }
    let gx = dims[0];
    let gy = dims[1];
    let flat = iz * gx * gy + iy * gx + ix;
    flat as usize
}

/// The per-cell lookup of a grid of `dims` cells with no cell supported by
/// a bed particle (`-1` everywhere).
pub fn empty_cell_lookup(dims: [u32; 3]) -> (r: Vec<i32>)
    requires
        total_cells_spec(dims) <= u32::MAX,
    ensures
        r@.len() == total_cells_spec(dims),
        forall|c: int| 0 <= c < r@.len() ==> r@[c] == -1,
{
    let total = total_cells(dims);
    let mut lookup: Vec<i32> = Vec::new();
    let mut k: u32 = 0;
    while k < total
        invariant
            k <= total,
            total == total_cells_spec(dims),
            lookup@.len() == k,
            forall|c: int| 0 <= c < k ==> lookup@[c] == -1,
        decreases total - k,
    {
        lookup.push(-1);
        k = k + 1;
    }
    lookup
}

// ---------------------------------------------------------------------------
// Bed lattice
// ---------------------------------------------------------------------------

/// Position of lattice site `(ix, iy, iz)` in the order the bed is laid out:
/// layer by layer from the bottom (`iy`), each layer row by row (`ix`), each
/// row along `iz`.
pub open spec fn scan_index(dims: [u32; 3], ix: int, iy: int, iz: int) -> int {
    (iy * dims[0] + ix) * dims[2] + iz
}

/// Sites of the lattice box of `dims` sites.
pub open spec fn lattice_sites(dims: [u32; 3]) -> int {
    dims[0] * dims[1] * dims[2]
}

/// How many of the first `q` scan positions lie inside the bed.
pub open spec fn inside_before(inside: Seq<bool>, q: int) -> nat
    decreases q,
{
    if q <= 0 {
        0
    } else {
        inside_before(inside, q - 1) + if inside[q - 1] {
            1nat
        } else {
            0nat
        }
    }
}

/// The particle that scan position `q` becomes: the sites inside the bed are
/// numbered in scan order, and only the first `target` of them are kept.
pub open spec fn lattice_particle(inside: Seq<bool>, target: u32, q: int) -> Option<int> {
    if 0 <= q < inside.len() && inside[q] && inside_before(inside, q) < target {
        Some(inside_before(inside, q) as int)
    } else {
        None
    }
}

/// Number of bed particles: the sites inside the bed, at most `target`.
pub open spec fn lattice_particle_count(inside: Seq<bool>, target: u32) -> int {
    let n = inside_before(inside, inside.len() as int);
    if n < target {
        n as int
    } else {
        target as int
    }
}

proof fn lemma_inside_before_le(inside: Seq<bool>, q: int)
    requires
        0 <= q,
    ensures
        inside_before(inside, q) <= q,
    decreases q,
{
    if q > 0 {
        lemma_inside_before_le(inside, q - 1);
    }
}

proof fn lemma_scan_index_bounds(dims: [u32; 3], ix: int, iy: int, iz: int)
    requires
        0 <= ix < dims[0],
        0 <= iy < dims[1],
        0 <= iz < dims[2],
    ensures
        0 <= iy * dims[0],
        iy * dims[0] + ix <= (iy * dims[0] + ix) * dims[2],
        (iy * dims[0] + ix) * dims[2] + dims[2] <= lattice_sites(dims),
{
    let nx = dims[0] as int;
    let ny = dims[1] as int;
    let nz = dims[2] as int;
    assert(0 <= iy * nx && iy * nx + ix <= (iy * nx + ix) * nz) by (nonlinear_arith)
        requires
            0 <= iy,
            0 <= ix,
            0 <= nx,
            1 <= nz,
    ;
    assert((iy * nx + ix) * nz + nz <= nx * ny * nz) by (nonlinear_arith)
        requires
            0 <= ix < nx,
            0 <= iy < ny,
            0 <= nz,
    ;
}

proof fn lemma_inside_before_monotone(inside: Seq<bool>, p: int, q: int)
    requires
        0 <= p <= q,
    ensures
        inside_before(inside, p) <= inside_before(inside, q),
        p < q && inside[p] ==> inside_before(inside, p) < inside_before(inside, q),
    decreases q - p,
{
    if p < q {
        lemma_inside_before_monotone(inside, p, q - 1);
    }
}

proof fn lemma_inside_before_hits(inside: Seq<bool>, q: int, i: int)
    requires
        0 <= q <= inside.len(),
        0 <= i < inside_before(inside, q),
    ensures
        exists|p: int| 0 <= p < q && inside[p] && inside_before(inside, p) == i,
    decreases q,
{
    if inside_before(inside, q - 1) > i {
        lemma_inside_before_hits(inside, q - 1, i);
        let p = choose|p: int| 0 <= p < q - 1 && inside[p] && inside_before(inside, p) == i;
        assert(0 <= p < q && inside[p] && inside_before(inside, p) == i);
    } else {
        assert(inside[q - 1] && inside_before(inside, q - 1) == i);
    }
}

/// The bed particles are numbered `0 .. count` without gaps or repeats:
/// every kept site has a number below the count, two sites never share a
/// number, and every number below the count belongs to a site.
pub proof fn lemma_lattice_numbering(inside: Seq<bool>, target: u32, p: int, q: int, i: int)
    ensures
        lattice_particle(inside, target, p) matches Some(n) ==> 0 <= n < lattice_particle_count(
            inside,
            target,
        ),
        p != q && lattice_particle(inside, target, p) is Some ==> lattice_particle(
            inside,
            target,
            p,
        ) != lattice_particle(inside, target, q),
        0 <= i < lattice_particle_count(inside, target) ==> exists|s: int|
            lattice_particle(inside, target, s) == Some(i),
{
    if lattice_particle(inside, target, p) is Some {
        lemma_inside_before_monotone(inside, p, inside.len() as int);
        if lattice_particle(inside, target, q) is Some {
            if p < q {
                lemma_inside_before_monotone(inside, p, q);
            } else if q < p {
                lemma_inside_before_monotone(inside, q, p);
            }
        }
    }
    if 0 <= i < lattice_particle_count(inside, target) {
        lemma_inside_before_hits(inside, inside.len() as int, i);
        let s = choose|s: int| 0 <= s < inside.len() && inside[s] && inside_before(inside, s) == i;
        assert(lattice_particle(inside, target, s) == Some(i));
    }
}

/// Lattice coordinate `coord` moved into `0 ..= n - 1`: the nearest site
/// along an axis of `n` sites.
pub open spec fn clamp_lattice_coord_spec(coord: i32, n: i32) -> i32 {
    if coord < 0 {
        0
    } else if coord > n - 1 {
        (n - 1) as i32
    } else {
        coord
    }
}

/// The lattice coordinate nearest to `coord` on an axis of `n` sites.
pub fn clamp_lattice_coord(coord: i32, n: i32) -> (r: i32)
    requires
        n >= 1,
    ensures
        r == clamp_lattice_coord_spec(coord, n),
        0 <= r < n,
{
    let top = n - 1;
    if coord < 0 {
        0
    } else if coord > top {
        top
    } else {
        coord
    }
}

/// The lattice of a coffee bed: which sites of its box became bed particles
/// and under which particle number.
///
/// The box is small and densely filled, so each site keeps its particle
/// number (or `-1`) in an array indexed by its scan position.
pub struct BedLattice {
    dims: [u32; 3],
    slots: Vec<i32>,
    count: u32,
}

impl BedLattice {
    /// One slot per site of the box, and few enough sites that every
    /// particle number fits an `i32`.
    #[verifier::type_invariant]
    spec fn slots_cover_box(&self) -> bool {
        &&& self.slots@.len() == lattice_sites(self.dims)
        &&& lattice_sites(self.dims) <= i32::MAX
    }

    /// Sites along x, y and z of the lattice box.
    pub closed spec fn box_dims(&self) -> [u32; 3] {
        self.dims
    }

    /// Number of bed particles.
    pub closed spec fn num_particles(&self) -> int {
        self.count as int
    }

    /// The particle at scan position `q`, if that site became one.
    pub closed spec fn particle_at_scan(&self, q: int) -> Option<int> {
        if 0 <= q < self.slots@.len() && self.slots@[q] >= 0 {
            Some(self.slots@[q] as int)
        } else {
            None
        }
    }

    /// The lattice laid out from the bed mask: `inside` tells, for each site
    /// in scan order, whether it lies inside the bed, and at most `target`
    /// sites become particles.
    pub fn from_inside_mask(dims: [u32; 3], inside: &Vec<bool>, target: u32) -> (r: Self)
        requires
            inside@.len() == lattice_sites(dims),
            lattice_sites(dims) <= i32::MAX,
        ensures
            r.box_dims() == dims,
            r.num_particles() == lattice_particle_count(inside@, target),
            forall|q: int|
                0 <= q < lattice_sites(dims) ==> #[trigger] r.particle_at_scan(q)
                    == lattice_particle(inside@, target, q),
    {
        let n = inside.len();
        let mut slots: Vec<i32> = Vec::new();
        let mut count: u32 = 0;
        let mut q: usize = 0;
        while q < n
            invariant
                n == inside@.len(),
                n <= i32::MAX,
                q <= n,
                slots@.len() == q,
                count as int == if inside_before(inside@, q as int) < target {
                    inside_before(inside@, q as int) as int
                } else {
                    target as int
                },
                forall|p: int|
                    0 <= p < q ==> #[trigger] slots@[p] == match lattice_particle(
                        inside@,
                        target,
                        p,
                    ) {
                        Some(k) => k as i32,
                        None => -1i32,
                    },
            decreases n - q,
        {
            proof {
                lemma_inside_before_monotone(inside@, 0, q as int);
                assert(inside_before(inside@, q as int) <= q) by {
                    lemma_inside_before_le(inside@, q as int);
                }
            }
            if inside[q] && count < target {
                slots.push(count as i32);
                count = count + 1;
            } else {
                slots.push(-1);
            }
            q = q + 1;
        }
        let r = BedLattice { dims, slots, count };
        assert forall|p: int| 0 <= p < lattice_sites(dims) implies #[trigger] r.particle_at_scan(p)
            == lattice_particle(inside@, target, p) by {
            assert(r.slots@[p] == match lattice_particle(inside@, target, p) {
                Some(k) => k as i32,
                None => -1i32,
            });
            if let Some(k) = lattice_particle(inside@, target, p) {
                lemma_inside_before_le(inside@, p);
            }
        }
        r
    }

    /// Number of bed particles.
    pub fn len(&self) -> (r: u32)
        ensures
            r == self.num_particles(),
    {
        self.count
    }

    /// The particle number of lattice site `(ix, iy, iz)`, if the site
    /// became a particle.
    pub fn particle_at(&self, ix: u32, iy: u32, iz: u32) -> (r: Option<i32>)
        requires
            ix < self.box_dims()[0],
            iy < self.box_dims()[1],
            iz < self.box_dims()[2],
        ensures
            ({
                let q = scan_index(self.box_dims(), ix as int, iy as int, iz as int);
                match r {
                    Some(p) => self.particle_at_scan(q) == Some(p as int),
                    None => self.particle_at_scan(q) is None,
                }
            }),
    {
        proof {
            use_type_invariant(self);
            lemma_scan_index_bounds(self.dims, ix as int, iy as int, iz as int);
        }
        let nx = self.dims[0];
        let nz = self.dims[2];
        let q = (iy * nx + ix) * nz + iz;
        let v = self.slots[q as usize];
        if v >= 0 {
            Some(v)
        } else {
            None
        }
    }
}

} // verus!
