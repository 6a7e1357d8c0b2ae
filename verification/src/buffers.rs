//! Integer layout of the simulation's GPU state: the byte size of each
//! buffer, which follows from the particle budget and the grid, and the
//! integer header of the per-substep uniforms.
use vstd::prelude::*;

use crate::scene::MpmSettings;
use crate::schedule::{total_cells, total_cells_spec, METRICS_SLOT_COUNT};
use crate::stepping::{seeded_water_kept, ParticleCounts};

verus! {

/// Bytes per particle of the particle buffer (position and J, velocity and
/// mass).
pub const PARTICLE_BYTES: u64 = 32;

/// Bytes per particle of the affine buffer (three APIC columns).
pub const AFFINE_BYTES: u64 = 48;

/// Bytes per particle of the render buffer (one vector).
pub const RENDER_BYTES: u64 = 16;

/// Bytes per particle of the bed extraction buffer.
pub const BED_EXTRACT_BYTES: u64 = 32;

/// Bytes per cell of the atomic grid (four fixed-point lanes).
pub const GRID_BYTES: u64 = 16;

/// Bytes per cell of the grid velocity buffer (one vector).
pub const GRID_VELOCITY_BYTES: u64 = 16;

/// Bytes of one `u32` or `i32` entry.
pub const WORD_BYTES: u64 = 4;

/// `i32` lanes per particle slot of the bed exchange buffer: water, impulse
/// x, y and z, mobile solute and solute deposited by absorbed water. Lane
/// `l` of slot `p` lives at `l * max_particles + p`.
pub const BED_DELTA_LANES: u64 = 6;

/// Byte sizes of the simulation's buffers.
#[derive(Clone, Copy, Debug, PartialEq, Eq, Structural)]
pub struct MpmBufferSizes {
    pub particles: u64,
    pub affine: u64,
    pub grid: u64,
    pub grid_velocity: u64,
    pub bed_lookup: u64,
    pub bed_support_count: u64,
    pub bed_delta: u64,
    pub render: u64,
    pub bed_extract: u64,
    pub metrics: u64,
}

/// Per-particle buffers hold `max_particles` entries (the bed exchange
/// buffer six lanes of them), per-cell buffers one entry per grid cell,
/// and the metrics buffer one word per metrics slot.
pub open spec fn buffer_sizes_spec(max_particles: u32, cells: int) -> MpmBufferSizes {
    MpmBufferSizes {
        particles: (max_particles * PARTICLE_BYTES) as u64,
        affine: (max_particles * AFFINE_BYTES) as u64,
        grid: (cells * GRID_BYTES) as u64,
        grid_velocity: (cells * GRID_VELOCITY_BYTES) as u64,
        bed_lookup: (cells * WORD_BYTES) as u64,
        bed_support_count: (max_particles * WORD_BYTES) as u64,
        bed_delta: (max_particles * BED_DELTA_LANES * WORD_BYTES) as u64,
        render: (max_particles * RENDER_BYTES) as u64,
        bed_extract: (max_particles * BED_EXTRACT_BYTES) as u64,
        metrics: (METRICS_SLOT_COUNT * WORD_BYTES) as u64,
    }
}

/// Byte sizes of the buffers of a run with `settings`.
pub fn buffer_sizes(settings: &MpmSettings) -> (r: MpmBufferSizes)
    requires
        total_cells_spec(settings.grid_dims) <= u32::MAX,
    ensures
        r == buffer_sizes_spec(settings.max_particles, total_cells_spec(settings.grid_dims)),
{
    let max_p = settings.max_particles as u64;
    let cells = total_cells(settings.grid_dims) as u64;
    MpmBufferSizes {
        particles: max_p * PARTICLE_BYTES,
        affine: max_p * AFFINE_BYTES,
        grid: cells * GRID_BYTES,
        grid_velocity: cells * GRID_VELOCITY_BYTES,
        bed_lookup: cells * WORD_BYTES,
        bed_support_count: max_p * WORD_BYTES,
        bed_delta: max_p * BED_DELTA_LANES * WORD_BYTES,
        render: max_p * RENDER_BYTES,
        bed_extract: max_p * BED_EXTRACT_BYTES,
        metrics: METRICS_SLOT_COUNT as u64 * WORD_BYTES,
    }
}

/// Byte offsets of the first water slot in the particle and affine buffers:
/// the bed particles come first.
pub fn water_offsets(num_bed: u32) -> (r: (u64, u64))
    ensures
        r.0 == num_bed * PARTICLE_BYTES,
        r.1 == num_bed * AFFINE_BYTES,
{
    let n = num_bed as u64;
    (n * PARTICLE_BYTES, n * AFFINE_BYTES)
}

/// Seeded water lands inside the particle and affine buffers: written after
/// a bed that fits the pool, the kept water ends within both buffers.
pub proof fn lemma_seeded_water_fits_buffers(
    max_particles: u32,
    cells: int,
    num_bed: u32,
    seeded: int,
)
    requires
        num_bed <= max_particles,
        seeded >= 0,
    ensures
        ({
            let kept = seeded_water_kept(seeded, num_bed, max_particles);
            let sizes = buffer_sizes_spec(max_particles, cells);
            &&& num_bed + kept <= max_particles
            &&& (num_bed + kept) * PARTICLE_BYTES <= sizes.particles
            &&& (num_bed + kept) * AFFINE_BYTES <= sizes.affine
        }),
{
    let kept = seeded_water_kept(seeded, num_bed, max_particles);
    assert(num_bed + kept <= max_particles);
    let n = num_bed + kept;
    assert(n * 32 <= max_particles * 32 && n * 48 <= max_particles * 48) by (nonlinear_arith)
        requires
            0 <= n <= max_particles,
    ;
}

/// The integer part of the per-substep uniforms: the grid's dimensions with
/// its cell count, and the particle counts with the pool capacity and the
/// signed-distance cache flag.
#[derive(Clone, Copy, Debug, PartialEq, Eq)]
pub struct UniformHeader {
    pub grid_dims: [u32; 4],
    pub counts: [u32; 4],
}

pub open spec fn uniform_header_spec(settings: MpmSettings, counts: ParticleCounts) -> UniformHeader {
    UniformHeader {
        grid_dims: [
            settings.grid_dims[0],
            settings.grid_dims[1],
            settings.grid_dims[2],
            total_cells_spec(settings.grid_dims) as u32,
        ],
        counts: [
            counts.num_water,
            counts.num_bed,
            settings.max_particles,
            if settings.use_sdf_cache {
                1
            } else {
                0
            },
        ],
    }
}

/// The integer header of the uniforms of a substep of a run with
/// `settings` holding `counts` particles.
pub fn uniform_header(settings: &MpmSettings, counts: &ParticleCounts) -> (r: UniformHeader)
    requires
        total_cells_spec(settings.grid_dims) <= u32::MAX,
    ensures
        r == uniform_header_spec(*settings, *counts),
{
    let dims = settings.grid_dims;
    UniformHeader {
        grid_dims: [dims[0], dims[1], dims[2], total_cells(dims)],
        counts: [
            counts.num_water,
            counts.num_bed,
            settings.max_particles,
            if settings.use_sdf_cache {
                1
            } else {
                0
            },
        ],
    }
}

} // verus!
