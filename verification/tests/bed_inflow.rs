use coffee_sim_wasm::bed::{
    build_support_counts, cell_index, clamp_lattice_coord, empty_cell_lookup, hash_to_unit_numerator,
    mix_seed, BedLattice,
};
use coffee_sim_wasm::inflow::{aperture_sample, emission_budget, hash_u32, EmissionResult};
use coffee_sim_wasm::sdf::sdf_texel_index;

#[test]
fn lattice_seeds_mix_each_coordinate() {
    assert_eq!(mix_seed(0, 0, 0), 0);
    assert_eq!(mix_seed(1, 2, 3), 6842984692620231334);
    assert_eq!(mix_seed(-1, 0, 0), 16218309275115946987);
}

#[test]
fn unit_samples_use_the_top_bits() {
    assert_eq!(hash_to_unit_numerator(0), 14819496);
    assert_eq!(hash_to_unit_numerator(mix_seed(1, 2, 3)), 11566549);
    assert!(hash_to_unit_numerator(u64::MAX) < 1 << 24);
}

#[test]
fn support_counts_count_lookup_references() {
    let lookup = [-1, 0, 2, 2, 7, 0, 2, -5];
    assert_eq!(build_support_counts(&lookup, 3), vec![2, 0, 3]);
    assert_eq!(build_support_counts(&lookup, 0), Vec::<u32>::new());
    assert_eq!(build_support_counts(&[], 2), vec![0, 0]);
}

#[test]
fn integer_hash_matches_known_values() {
    assert_eq!(hash_u32(0), 0);
    assert_eq!(hash_u32(1), 1753845952);
    assert_eq!(hash_u32(101), 325208784);
}

#[test]
fn emission_respects_the_particle_pool() {
    assert_eq!(emission_budget(10, 5, 5, 100), EmissionResult { emitted: 10, dropped: 0 });
    assert_eq!(emission_budget(10, 90, 5, 100), EmissionResult { emitted: 5, dropped: 5 });
    assert_eq!(emission_budget(10, 90, 20, 100), EmissionResult { emitted: 0, dropped: 10 });
    assert_eq!(emission_budget(0, 0, 0, 0), EmissionResult { emitted: 0, dropped: 0 });
}

#[test]
fn aperture_samples_pair_up_across_the_axis() {
    for count in 1..10u32 {
        let mut positive = 0;
        let mut negative = 0;
        let mut axis = 0;
        for i in 0..count {
            match aperture_sample(i, count, 101) {
                None => axis += 1,
                Some(s) if s.positive_side => {
                    positive += 1;
                    let partner = aperture_sample(i + 1, count, 101).expect("partner");
                    assert!(!partner.positive_side);
                    assert_eq!(partner.angle_hash, s.angle_hash);
                    assert_eq!(partner.radius_hash, s.radius_hash);
                }
                Some(_) => negative += 1,
            }
        }
        assert_eq!(positive, negative);
        assert_eq!(axis, count % 2);
    }
}

#[test]
fn cells_are_indexed_x_fastest_then_y_then_z() {
    let dims = [4, 3, 2];
    assert_eq!(cell_index(dims, 0, 0, 0), 0);
    assert_eq!(cell_index(dims, 3, 0, 0), 3);
    assert_eq!(cell_index(dims, 0, 1, 0), 4);
    assert_eq!(cell_index(dims, 0, 0, 1), 12);
    assert_eq!(cell_index(dims, 3, 2, 1), 23);
    let mut seen = vec![false; 24];
    for iz in 0..2 {
        for iy in 0..3 {
            for ix in 0..4 {
                let c = cell_index(dims, ix, iy, iz);
                assert!(!seen[c]);
                seen[c] = true;
            }
        }
    }
    assert!(seen.iter().all(|s| *s));
}

#[test]
fn empty_cell_lookup_marks_every_cell_unsupported() {
    let lookup = empty_cell_lookup([16, 16, 16]);
    assert_eq!(lookup.len(), 16 * 16 * 16);
    assert!(lookup.iter().all(|v| *v == -1));
    assert!(empty_cell_lookup([5, 0, 3]).is_empty());
}

#[test]
fn lattice_coordinates_clamp_into_the_box() {
    assert_eq!(clamp_lattice_coord(-1, 5), 0);
    assert_eq!(clamp_lattice_coord(0, 5), 0);
    assert_eq!(clamp_lattice_coord(3, 5), 3);
    assert_eq!(clamp_lattice_coord(5, 5), 4);
    assert_eq!(clamp_lattice_coord(i32::MIN, 1), 0);
    assert_eq!(clamp_lattice_coord(i32::MAX, 1), 0);
}

#[test]
fn lattice_numbers_inside_sites_in_scan_order() {
    // Box of 2 x 1 x 3 sites, scanned along z within each x row.
    let inside = vec![true, false, true, true, true, false];
    let lattice = BedLattice::from_inside_mask([2, 1, 3], &inside, 10);
    assert_eq!(lattice.len(), 4);
    assert_eq!(lattice.particle_at(0, 0, 0), Some(0));
    assert_eq!(lattice.particle_at(0, 0, 1), None);
    assert_eq!(lattice.particle_at(0, 0, 2), Some(1));
    assert_eq!(lattice.particle_at(1, 0, 0), Some(2));
    assert_eq!(lattice.particle_at(1, 0, 1), Some(3));
    assert_eq!(lattice.particle_at(1, 0, 2), None);
}

#[test]
fn lattice_keeps_only_the_first_target_sites() {
    let inside = vec![true, false, true, true, true, false];
    let lattice = BedLattice::from_inside_mask([2, 1, 3], &inside, 2);
    assert_eq!(lattice.len(), 2);
    assert_eq!(lattice.particle_at(0, 0, 0), Some(0));
    assert_eq!(lattice.particle_at(0, 0, 2), Some(1));
    assert_eq!(lattice.particle_at(1, 0, 0), None);
    assert_eq!(lattice.particle_at(1, 0, 1), None);
    let empty = BedLattice::from_inside_mask([2, 1, 3], &inside, 0);
    assert_eq!(empty.len(), 0);
    assert_eq!(empty.particle_at(0, 0, 0), None);
}

#[test]
fn lattice_layers_come_before_rows() {
    // Box of 2 x 2 x 1 sites: layer y = 0 holds scan positions 0 and 1.
    let inside = vec![false, true, true, true];
    let lattice = BedLattice::from_inside_mask([2, 2, 1], &inside, 10);
    assert_eq!(lattice.particle_at(1, 0, 0), Some(0));
    assert_eq!(lattice.particle_at(0, 1, 0), Some(1));
    assert_eq!(lattice.particle_at(1, 1, 0), Some(2));
    assert_eq!(lattice.particle_at(0, 0, 0), None);
}

#[test]
fn sdf_texels_clamp_onto_the_volume() {
    assert_eq!(sdf_texel_index([0, 0, 0]), 0);
    assert_eq!(sdf_texel_index([1, 0, 0]), 1);
    assert_eq!(sdf_texel_index([0, 1, 0]), 128);
    assert_eq!(sdf_texel_index([0, 0, 1]), 128 * 128);
    assert_eq!(sdf_texel_index([-5, 200, 3]), 3 * 128 * 128 + 127 * 128);
    assert_eq!(sdf_texel_index([i32::MAX, i32::MAX, i32::MAX]), 128 * 128 * 128 - 1);
    assert_eq!(sdf_texel_index([i32::MIN, 0, 0]), 0);
}

#[test]
fn support_counts_skip_empty_and_unknown_cells() {
    assert_eq!(build_support_counts(&[-1, 0, 2, 0, 5], 3), vec![2, 0, 1]);
}
