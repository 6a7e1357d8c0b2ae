use coffee_sim_wasm::inflow::EmissionResult;
use coffee_sim_wasm::scene::MpmSettings;
use coffee_sim_wasm::schedule::{encode_mpm_substep_schedule, substep_dispatch_sizes};
use coffee_sim_wasm::pressure::PressureContext;
use coffee_sim_wasm::stepping::{
    plan_substep, rbgs_pair_headroom, rbgs_pairs_for_substep, substep_ops, ParticleCounts,
};

#[test]
fn new_pool_holds_only_the_bed() {
    let counts = ParticleCounts::with_bed(1200);
    assert_eq!(counts.num_water, 0);
    assert_eq!(counts.num_bed, 1200);
    assert_eq!(counts.frame_dropped, 0);
    assert_eq!(counts.total_dropped, 0);
}

#[test]
fn emission_fills_the_pool_and_drops_the_rest() {
    let mut counts = ParticleCounts::with_bed(90);
    let r = counts.emit(8, 100);
    assert_eq!(r, EmissionResult { emitted: 8, dropped: 0 });
    assert_eq!(counts.num_water, 8);
    let r = counts.emit(5, 100);
    assert_eq!(r, EmissionResult { emitted: 2, dropped: 3 });
    assert_eq!(counts.num_water, 10);
    assert_eq!(counts.frame_dropped, 3);
    assert_eq!(counts.total_dropped, 3);
    let r = counts.emit(4, 100);
    assert_eq!(r, EmissionResult { emitted: 0, dropped: 4 });
    assert_eq!(counts.num_water + counts.num_bed, 100);
    assert_eq!(counts.frame_dropped, 7);
    assert_eq!(counts.total_dropped, 7);
}

#[test]
fn a_new_frame_restarts_only_the_frame_drop_counter() {
    let mut counts = ParticleCounts::with_bed(0);
    counts.emit(12, 10);
    assert_eq!(counts.frame_dropped, 2);
    counts.begin_frame();
    assert_eq!(counts.frame_dropped, 0);
    assert_eq!(counts.total_dropped, 2);
    assert_eq!(counts.num_water, 10);
    counts.emit(1, 10);
    assert_eq!(counts.frame_dropped, 1);
    assert_eq!(counts.total_dropped, 3);
}

#[test]
fn substep_ops_follow_the_current_particle_counts() {
    let settings = MpmSettings::default_v60();
    let mut counts = ParticleCounts::with_bed(300);
    counts.emit(257, settings.max_particles);
    let ops = substep_ops(&settings, &counts, 12);
    let dispatch = substep_dispatch_sizes(settings.grid_dims, 257, 300);
    assert_eq!(dispatch.particle_wg, 9);
    assert_eq!(dispatch.bed_wg, 5);
    let ctx = PressureContext {
        kind: settings.pressure_solver,
        operator: settings.pressure_operator,
        cell_wg: dispatch.cell_wg,
        rbgs_pairs: 12,
        cg_iterations: settings.pressure_cg_iterations,
    };
    assert_eq!(ops, encode_mpm_substep_schedule(dispatch, ctx));
    assert!(!ops.is_empty());
}

#[test]
fn rbgs_pairs_stay_at_the_configured_count_without_overshoot() {
    assert_eq!(rbgs_pairs_for_substep(40, 120, None), 40);
    assert_eq!(rbgs_pairs_for_substep(0, 120, None), 1);
    assert_eq!(rbgs_pair_headroom(40, 120), 80);
    assert_eq!(rbgs_pair_headroom(40, 10), 0);
    assert_eq!(rbgs_pair_headroom(0, 0), 0);
}

#[test]
fn rbgs_pairs_rise_towards_the_ceiling() {
    assert_eq!(rbgs_pairs_for_substep(40, 120, Some(27)), 67);
    assert_eq!(rbgs_pairs_for_substep(40, 120, Some(80)), 120);
    assert_eq!(rbgs_pairs_for_substep(40, 120, Some(500)), 120);
    assert_eq!(rbgs_pairs_for_substep(40, 10, Some(5)), 40);
    assert_eq!(rbgs_pairs_for_substep(0, 3, Some(1)), 2);
}

#[test]
fn reset_empties_the_pool_and_a_bed_can_be_placed() {
    let mut counts = ParticleCounts::with_bed(40);
    counts.emit(30, 50);
    counts.reset();
    assert_eq!(counts, ParticleCounts::with_bed(0));
    counts.place_bed(0);
    assert_eq!(counts.num_bed, 0);
    counts.place_bed(1200);
    assert_eq!(counts.num_bed, 1200);
    assert_eq!(counts.num_water, 0);
}

#[test]
fn seeded_water_is_capped_beside_the_bed() {
    let mut counts = ParticleCounts::with_bed(90);
    counts.emit(20, 100);
    assert_eq!(counts.total_dropped, 10);
    assert_eq!(counts.seed_water(5, 100), 5);
    assert_eq!(counts.num_water, 5);
    assert_eq!(counts.frame_dropped, 0);
    assert_eq!(counts.total_dropped, 0);
    assert_eq!(counts.seed_water(50, 100), 10);
    assert_eq!(counts.num_water, 10);
    assert_eq!(counts.seed_water(0, 100), 0);
    let mut crowded = ParticleCounts::with_bed(120);
    assert_eq!(crowded.seed_water(7, 100), 0);
}

#[test]
fn a_substep_plan_emits_first_then_schedules_for_the_new_pool() {
    let mut settings = MpmSettings::default_v60();
    settings.pressure_rbgs_max_pairs = 60;
    let mut counts = ParticleCounts::with_bed(300);
    let plan = plan_substep(&settings, &mut counts, 257, Some(5));
    assert_eq!(plan.emission, EmissionResult { emitted: 257, dropped: 0 });
    assert_eq!(counts.num_water, 257);
    assert_eq!(plan.rbgs_pairs, 45);
    assert_eq!(plan.dispatch, substep_dispatch_sizes(settings.grid_dims, 257, 300));
    assert_eq!(plan.pressure.rbgs_pairs, 45);
    assert_eq!(plan.pressure.cell_wg, plan.dispatch.cell_wg);
    assert_eq!(plan.ops, substep_ops(&settings, &counts, 45));
    let plan = plan_substep(&settings, &mut counts, 0, None);
    assert_eq!(plan.rbgs_pairs, 40);
    assert_eq!(plan.emission, EmissionResult { emitted: 0, dropped: 0 });
}
