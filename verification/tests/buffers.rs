use coffee_sim_wasm::buffers::{buffer_sizes, uniform_header, water_offsets, MpmBufferSizes};
use coffee_sim_wasm::scene::MpmSettings;
use coffee_sim_wasm::stepping::ParticleCounts;

#[test]
fn default_scene_buffer_sizes_follow_budget_and_grid() {
    let sizes = buffer_sizes(&MpmSettings::default_v60());
    assert_eq!(
        sizes,
        MpmBufferSizes {
            particles: 7_040_000,
            affine: 10_560_000,
            grid: 11_776_000,
            grid_velocity: 11_776_000,
            bed_lookup: 2_944_000,
            bed_support_count: 880_000,
            bed_delta: 5_280_000,
            render: 3_520_000,
            bed_extract: 7_040_000,
            metrics: 32,
        }
    );
}

#[test]
fn capacity_stress_scene_shrinks_only_particle_buffers() {
    let small = buffer_sizes(&MpmSettings::debug_particle_capacity_stress());
    let full = buffer_sizes(&MpmSettings::default_v60());
    assert_eq!(small.particles, 32_000 * 32);
    assert_eq!(small.render, 32_000 * 16);
    assert_eq!(small.bed_delta, 32_000 * 6 * 4);
    assert_eq!(small.grid, full.grid);
    assert_eq!(small.bed_lookup, full.bed_lookup);
}

#[test]
fn uniform_header_carries_grid_and_counts() {
    let settings = MpmSettings::default_v60();
    let mut counts = ParticleCounts::with_bed(12_000);
    counts.emit(500, settings.max_particles);
    let header = uniform_header(&settings, &counts);
    assert_eq!(header.grid_dims, [80, 115, 80, 736_000]);
    assert_eq!(header.counts, [500, 12_000, 220_000, 1]);
}

#[test]
fn water_is_written_after_the_bed_slots() {
    assert_eq!(water_offsets(0), (0, 0));
    assert_eq!(water_offsets(12_000), (384_000, 576_000));
}
