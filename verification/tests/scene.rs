use coffee_sim_wasm::pressure::{PressureOperatorKind, PressureSolverKind};
use coffee_sim_wasm::scene::{
    filter_config_key, DebugScene, MpmSettings, WaterSeed, DEFAULT_BED_PARTICLES, V60_BOUNDS_UNITS,
};

#[test]
fn debug_scene_catalog_ids_round_trip() {
    let mut ids = Vec::new();
    for scene in DebugScene::ALL {
        let id = scene.id();
        assert_eq!(DebugScene::from_id(id), Some(scene));
        assert!(!ids.contains(&id), "duplicate debug scene id: {id}");
        ids.push(id);
    }
    assert_eq!(ids.len(), 13);
}

#[test]
fn unknown_debug_scene_ids_are_rejected() {
    assert_eq!(DebugScene::from_id("filter-water-block "), None);
    assert_eq!(DebugScene::from_id("Filter-Water-Block"), None);
    assert_eq!(DebugScene::from_id(""), None);
}

#[test]
fn default_v60_settings() {
    let s = MpmSettings::default_v60();
    assert_eq!(s.grid_dims, [80, 115, 80]);
    assert_eq!(s.max_particles, 220_000);
    assert_eq!(s.substeps, 10);
    assert_eq!(s.pressure_solver, PressureSolverKind::Rbgs);
    assert_eq!(s.pressure_operator, PressureOperatorKind::Collocated);
    assert_eq!(s.pressure_rbgs_pairs, 40);
    assert_eq!(s.pressure_cg_iterations, 40);
    assert_eq!(s.bed_particles, Some(DEFAULT_BED_PARTICLES));
    assert!(s.has_filter);
}

#[test]
fn debug_scene_settings_match_expected_test_geometry() {
    for scene in DebugScene::ALL {
        let settings = scene.settings();
        assert!(settings.grid_dims.iter().all(|dim| *dim > 0));
        assert!(settings.max_particles > 0);
        let bed_budget = settings.bed_particles.unwrap_or(0);
        assert!(
            settings.max_particles > bed_budget + 2_000,
            "{} leaves too little water capacity",
            scene.id(),
        );
        match scene {
            DebugScene::FilterWaterBlock
            | DebugScene::OffCenterFilterWallPour
            | DebugScene::SeededPaperWallSheet
            | DebugScene::UniformBedSaturation
            | DebugScene::PermeabilityComparison
            | DebugScene::ParticleCapacityStress => {
                assert!(settings.has_filter, "{} needs filter geometry", scene.id());
                assert!(settings.bed_particles.is_some(), "{} needs bed geometry", scene.id());
            }
            DebugScene::FilterApexDrain => {
                assert!(settings.has_filter);
                assert!(settings.bed_particles.is_none());
            }
            _ => {
                assert!(!settings.has_filter, "{} should isolate cup water", scene.id());
                assert!(settings.bed_particles.is_none(), "{} should isolate cup water", scene.id());
                assert!(settings.has_cup, "{} needs a cup", scene.id());
            }
        }
    }
}

#[test]
fn capacity_stress_scene_has_a_small_pool() {
    assert_eq!(DebugScene::ParticleCapacityStress.settings().max_particles, 32_000);
    assert!(!DebugScene::HydrostaticColumn.settings().has_support_cone);
    assert!(DebugScene::FilterApexDrain.settings().has_support_cone);
}

#[test]
fn benchmark_scenes_tighten_projection() {
    let water_block = MpmSettings::benchmark_filter_water_block();
    assert!(water_block.has_filter);
    assert!(water_block.bed_particles.is_some());
    assert!(water_block.pressure_rbgs_pairs >= MpmSettings::default_v60().pressure_rbgs_pairs);
    let free = MpmSettings::benchmark_free_stream();
    assert_eq!(free.bed_particles, None);
    assert_eq!(free.pressure_rbgs_pairs, 80);
    assert_eq!(MpmSettings::benchmark_center_pour(), MpmSettings::default_v60());
    assert_eq!(MpmSettings::debug_hydrostatic_column().pressure_rbgs_pairs, 100);
    assert_eq!(MpmSettings::debug_dam_break_slosh().pressure_rbgs_pairs, 90);
    assert_eq!(MpmSettings::debug_sparse_free_jet().pressure_rbgs_pairs, 80);
}

#[test]
fn filter_key_is_fnv1a_over_the_bit_patterns() {
    let mut expected: u64 = 0xcbf2_9ce4_8422_2325;
    let bits = [1u32, 2, 3, 4, 5, 6, 7, 8, 9];
    for b in bits {
        expected ^= b as u64;
        expected = expected.wrapping_mul(0x0000_0100_0000_01b3);
    }
    assert_eq!(filter_config_key(bits), expected);
    let floats = [0.0f32, 0.3, 0.0, 2.75, -3.02, 4.1, 0.2, 0.03, 0.35];
    let key_a = filter_config_key(floats.map(f32::to_bits));
    let mut moved = floats;
    moved[0] = 0.5;
    assert_ne!(key_a, filter_config_key(moved.map(f32::to_bits)));
    assert_eq!(filter_config_key([0; 9]), 0xe604_823a_2490_29bf);
}

#[test]
fn seeded_scenes_name_their_starting_water() {
    assert_eq!(DebugScene::FilterWaterBlock.water_seed(), Some(WaterSeed::FilterWaterBlock));
    assert_eq!(DebugScene::HighVelocityJetImpact.water_seed(), Some(WaterSeed::HighVelocityJetImpactPool));
    assert_eq!(DebugScene::SparseFreeJet.water_seed(), None);
    assert_eq!(DebugScene::ParticleCapacityStress.water_seed(), None);
    let seeded = DebugScene::ALL.iter().filter(|s| s.water_seed().is_some()).count();
    assert_eq!(seeded, 9);
    for scene in DebugScene::ALL {
        let settings = scene.settings();
        match scene.water_seed() {
            Some(WaterSeed::FilterWaterBlock)
            | Some(WaterSeed::PaperWallSheet)
            | Some(WaterSeed::FilterApexDrain) => assert!(settings.has_filter),
            Some(WaterSeed::UniformBedSaturation) => {
                assert!(settings.has_filter && settings.bed_particles.is_some())
            }
            Some(_) => assert!(settings.has_cup && !settings.has_filter),
            None => {}
        }
    }
}

#[test]
fn default_v60_grid_uses_uniform_dx() {
    let s = MpmSettings::default_v60();
    let bounds = V60_BOUNDS_UNITS.map(|b| b as f32);
    let dx = bounds[0] / s.grid_dims[0] as f32;
    let dz = bounds[2] / s.grid_dims[2] as f32;
    assert!((dx - dz).abs() < 1e-5);
    let height_covered = s.grid_dims[1] as f32 * dx;
    assert!(height_covered >= bounds[1] - dx);
}
