use coffee_sim_wasm::pressure::{PressureOperatorKind, PressureSolverKind};
use coffee_sim_wasm::profiler::{
    dfsph_profiler_timestamp_query_capacity, dry_run_solver_metadata, output_path_for_solver,
    parse_solver_specs, profiler_timestamp_query_capacity, profiler_usage,
    pressure_solver_iterations_per_substep, runnable_solver_specs, settings_for_solver,
    settings_for_solver_with_base, solver_list_summary, solver_run_metadata,
    try_parse_solver_specs, xpbd_profiled_gpu_passes_per_substep,
    xpbd_profiler_timestamp_query_capacity, ProfileScene, ProfilerRunConfig,
    SimulationBackendKind, SolverSpec, XpbdSolverKind, XPBD_CONSTRAINT_ITERATIONS,
};
use coffee_sim_wasm::profiler_cli::{
    env_u32_value, parse_bool, parse_optional_bool, parse_positive_u32, ProfilerCliArgs,
};
use coffee_sim_wasm::profiler_plan::{
    profile_solver_specs_with_env, ProfileSelection, ProfilerEnv,
};
use coffee_sim_wasm::profiler_timing::{FrameRecorder, ProfilePassLabel};
use coffee_sim_wasm::scene::MpmSettings;
use coffee_sim_wasm::schedule::MpmPassLabel;

#[test]
fn profiler_solver_specs_parse_backend_qualified_values() {
    assert_eq!(
        "rbgs".parse::<SolverSpec>(),
        Ok(SolverSpec::mpm(PressureSolverKind::Rbgs))
    );
    assert_eq!(
        "mpm:sparse-cg".parse::<SolverSpec>(),
        Ok(SolverSpec::mpm(PressureSolverKind::SparseCg))
    );
    assert_eq!("dfsph".parse::<SolverSpec>(), Ok(SolverSpec::Dfsph));
    assert_eq!("dfsph:water".parse::<SolverSpec>(), Ok(SolverSpec::Dfsph));
    assert_eq!(
        "xpbd".parse::<SolverSpec>(),
        Ok(SolverSpec::Xpbd {
            solver: XpbdSolverKind::Gpu
        })
    );
    assert_eq!(
        "xpbd:gpu".parse::<SolverSpec>(),
        Ok(SolverSpec::Xpbd {
            solver: XpbdSolverKind::Gpu
        })
    );
    assert!("xpbd:cpu".parse::<SolverSpec>().is_err());
}

#[test]
fn profiler_all_expands_to_runnable_gpu_solver_specs() {
    let specs = runnable_solver_specs();
    assert_eq!(
        specs,
        vec![
            SolverSpec::mpm(PressureSolverKind::Rbgs),
            SolverSpec::mpm(PressureSolverKind::JacobiCg),
            SolverSpec::mpm(PressureSolverKind::SparseCg),
            SolverSpec::Dfsph,
            SolverSpec::Xpbd {
                solver: XpbdSolverKind::Gpu
            },
        ]
    );
    assert!(
        specs
            .iter()
            .any(|solver| matches!(solver, SolverSpec::Xpbd { .. })),
        "XPBD GPU path should be included in `all` so same-scene solver comparisons do not require code changes"
    );
}

#[test]
fn profiler_pressure_operator_support_is_explicit() {
    assert!(SolverSpec::mpm(PressureSolverKind::JacobiCg)
        .supports_pressure_operator(PressureOperatorKind::Staggered));
    assert!(!SolverSpec::mpm(PressureSolverKind::Rbgs)
        .supports_pressure_operator(PressureOperatorKind::Staggered));
    assert!(!SolverSpec::mpm(PressureSolverKind::SparseCg)
        .supports_pressure_operator(PressureOperatorKind::Staggered));
    assert!(!SolverSpec::Dfsph.supports_pressure_operator(PressureOperatorKind::Staggered));
    assert!(SolverSpec::Xpbd {
        solver: XpbdSolverKind::Gpu
    }
    .supports_pressure_operator(PressureOperatorKind::Staggered));
}

#[test]
fn profiler_xpbd_schedule_refreshes_hash_and_splits_density_apply() {
    assert_eq!(
        xpbd_profiled_gpu_passes_per_substep(),
        4 + XPBD_CONSTRAINT_ITERATIONS * 3 + (XPBD_CONSTRAINT_ITERATIONS - 1) * 2
    );
    assert!(
        xpbd_profiler_timestamp_query_capacity(1)
            >= (xpbd_profiled_gpu_passes_per_substep() + 7) * 2
    );
}

#[test]
fn profiler_dfsph_timestamp_capacity_covers_shared_pressure_schedule() {
    assert!(dfsph_profiler_timestamp_query_capacity(1) >= 80);
    assert!(dfsph_profiler_timestamp_query_capacity(2) >= 160);
}

#[test]
fn profiler_runnable_solver_ids_are_unique() {
    let mut ids = runnable_solver_specs()
        .into_iter()
        .map(SolverSpec::id)
        .collect::<Vec<_>>();
    ids.sort();
    ids.dedup();
    assert_eq!(ids.len(), SolverSpec::runnable_specs().len());
}

#[test]
fn profiler_cli_args_parse_key_value_and_separate_forms() {
    let args = ProfilerCliArgs::parse(&[
        "--solvers=all",
        "--scene",
        "water_block",
        "--pressure-operator=collocated",
        "--warmup=2",
        "--frames",
        "3",
        "--cal",
        "4",
        "--out",
        "target/profile.json",
        "--cg-iterations",
        "5",
    ])
    .expect("profiler args parse");

    assert_eq!(args.solvers.as_deref(), Some("all"));
    assert_eq!(args.scene.as_deref(), Some("water_block"));
    assert_eq!(args.pressure_operator.as_deref(), Some("collocated"));
    assert_eq!(args.warmup, Some(2));
    assert_eq!(args.measured, Some(3));
    assert_eq!(args.calibration, Some(4));
    assert_eq!(args.output, Some(String::from("target/profile.json")));
    assert_eq!(args.cg_iterations, Some(5));
}

#[test]
fn profiler_cli_discovery_flags_do_not_need_gpu() {
    let args =
        ProfilerCliArgs::parse(&["--list-solvers", "--help"]).expect("profiler args parse");
    assert_eq!(args.list_solvers, Some(true));
    assert_eq!(args.help, Some(true));

    let solvers = solver_list_summary();
    assert!(solvers.contains("mpm:rbgs"));
    assert!(solvers.contains("mpm:jacobi-cg"));
    assert!(solvers.contains("mpm:sparse-cg"));
    assert!(solvers.contains("dfsph"));
    assert!(solvers.contains("xpbd:gpu"));
    assert!(solvers.contains("all"));
    assert!(profiler_usage().contains("--solvers <A,B|all>"));
}

#[test]
fn profiler_cli_args_parse_kwargs_forms() {
    let args = ProfilerCliArgs::parse(&[
        "solver=xpbd",
        "scene=center_pour",
        "pressure_operator=collocated",
        "warmup=6",
        "measured=7",
        "calibration=8",
        "output=target/profile.json",
        "cg_iterations=9",
        "dry_run=true",
        "dry_run_json=true",
    ])
    .expect("profiler kwargs parse");

    assert_eq!(args.solver.as_deref(), Some("xpbd"));
    assert_eq!(args.scene.as_deref(), Some("center_pour"));
    assert_eq!(args.pressure_operator.as_deref(), Some("collocated"));
    assert_eq!(args.warmup, Some(6));
    assert_eq!(args.measured, Some(7));
    assert_eq!(args.calibration, Some(8));
    assert_eq!(args.output, Some(String::from("target/profile.json")));
    assert_eq!(args.cg_iterations, Some(9));
    assert_eq!(args.dry_run, Some(true));
    assert_eq!(args.dry_run_json, Some(true));
}

#[test]
fn profiler_native_raw_cli_args_select_all_solvers_on_one_scene() {
    let args = ProfilerCliArgs::from_env_and_args(
        None,
        &[
            "--scene",
            "water_block",
            "--solvers",
            "all",
            "--frames",
            "3",
            "--warmup",
            "2",
            "--cal",
            "1",
            "--out",
            "target/native-profile.json",
        ],
        true,
    );
    let selection = ProfileSelection::from_cli_with_env(&args, &ProfilerEnv::default());

    assert_eq!(selection.scene, ProfileScene::WaterBlock);
    assert_eq!(selection.solvers, runnable_solver_specs());
    assert_eq!(
        selection.solver_ids,
        runnable_solver_specs()
            .into_iter()
            .map(SolverSpec::id)
            .collect::<Vec<_>>()
    );
    assert_eq!(selection.warmup, 2);
    assert_eq!(selection.measured, 3);
    assert_eq!(selection.calibration, 1);
    assert_eq!(
        selection.base_output_path,
        String::from("target/native-profile.json")
    );
    assert!(selection.multiple_outputs);
}

#[test]
fn profiler_env_solver_selection_uses_same_scene_path() {
    let args = ProfilerCliArgs::from_env_and_args(
        Some("scene=water_block frames=5 warmup=4 cal=3"),
        &[],
        false,
    );
    let env = ProfilerEnv {
        solvers: Some("all".to_string()),
        output: Some("target/env-profile.json".to_string()),
        ..ProfilerEnv::default()
    };
    let selection = ProfileSelection::from_cli_with_env(&args, &env);

    assert_eq!(selection.scene, ProfileScene::WaterBlock);
    assert_eq!(selection.solvers, runnable_solver_specs());
    assert_eq!(selection.warmup, 4);
    assert_eq!(selection.measured, 5);
    assert_eq!(selection.calibration, 3);
    assert_eq!(
        selection.base_output_path,
        String::from("target/env-profile.json")
    );
    assert!(selection.multiple_outputs);
}

#[test]
fn profiler_dry_run_summary_lists_all_solver_outputs_and_scene_settings() {
    let args = ProfilerCliArgs::from_env_and_args(
        None,
        &[
            "--scene",
            "center_pour",
            "--solvers",
            "all",
            "--frames",
            "1",
            "--warmup",
            "1",
            "--cal",
            "1",
            "--out",
            "target/dry-profile.json",
            "--dry-run",
        ],
        true,
    );
    assert_eq!(args.dry_run, Some(true));

    let selection = ProfileSelection::from_cli_with_env(&args, &ProfilerEnv::default());
    let summary = selection.dry_run_summary();

    assert!(summary.contains("coffee-sim profiler dry run"));
    assert!(summary.contains("scene: center_pour"));
    assert!(summary.contains("solvers: mpm-rbgs, mpm-jacobi-cg, mpm-sparse-cg, dfsph, xpbd-gpu"));
    assert!(summary.contains("target/dry-profile-mpm-rbgs.json"));
    assert!(summary.contains("target/dry-profile-mpm-jacobi-cg.json"));
    assert!(summary.contains("target/dry-profile-mpm-sparse-cg.json"));
    assert!(summary.contains("target/dry-profile-dfsph.json"));
    assert!(summary.contains("target/dry-profile-xpbd-gpu.json"));
    assert!(summary.contains("grid=80x115x80"));
    assert!(summary.contains("rbgs_pairs=40"));
    assert!(summary.contains("cg_iterations=40"));
}

#[test]
fn profiler_cli_solver_overrides_solver_env() {
    let args = ProfilerCliArgs::parse(&["--solver", "xpbd:gpu"]).expect("profiler args parse");
    let env = ProfilerEnv {
        solvers: Some("all".to_string()),
        solver: Some("dfsph".to_string()),
        ..ProfilerEnv::default()
    };
    let selection = ProfileSelection::from_cli_with_env(&args, &env);

    assert_eq!(
        selection.solvers,
        vec![SolverSpec::Xpbd {
            solver: XpbdSolverKind::Gpu
        }]
    );
    assert!(!selection.multiple_outputs);
}

#[test]
fn profiler_all_solvers_share_selected_scene_settings() {
    let base = String::from("target/profile.json");
    let scene = ProfileScene::FreeStream;
    let scene_settings = scene.mpm_settings();
    let run = ProfilerRunConfig {
        scene,
        warmup: 1,
        measured: 1,
        calibration: 1,
        cg_iterations: None,
        pressure_operator: PressureOperatorKind::Collocated,
        solver_ids: runnable_solver_specs()
            .into_iter()
            .map(SolverSpec::id)
            .collect(),
        base_output_path: &base,
        multiple_outputs: true,
    };

    for solver in runnable_solver_specs() {
        let name = solver.display_name();
        let settings = settings_for_solver(solver, &run);
        assert_eq!(settings.grid_dims, scene_settings.grid_dims, "{name}");
        assert_eq!(settings.substeps, scene_settings.substeps, "{name}");
        assert_eq!(
            settings.max_particles, scene_settings.max_particles,
            "{name}"
        );
        assert_eq!(
            settings.pressure_rbgs_pairs, scene_settings.pressure_rbgs_pairs,
            "{name}"
        );
        assert_eq!(
            settings.pressure_cg_iterations, scene_settings.pressure_cg_iterations,
            "{name}"
        );
    }
}

#[test]
fn profiler_mpm_cg_defaults_to_scene_cg_budget() {
    let base = String::from("target/profile.json");
    let mut scene_settings = ProfileScene::CenterPour.mpm_settings();
    scene_settings.pressure_rbgs_pairs = 12;
    scene_settings.pressure_cg_iterations = 34;
    let run = ProfilerRunConfig {
        scene: ProfileScene::CenterPour,
        warmup: 1,
        measured: 1,
        calibration: 1,
        cg_iterations: None,
        pressure_operator: PressureOperatorKind::Collocated,
        solver_ids: vec!["mpm-sparse-cg".to_string()],
        base_output_path: &base,
        multiple_outputs: false,
    };

    let settings = settings_for_solver_with_base(
        SolverSpec::mpm(PressureSolverKind::SparseCg),
        &run,
        scene_settings,
    );
    assert_eq!(settings.pressure_rbgs_pairs, 12);
    assert_eq!(settings.pressure_cg_iterations, 34);
}

#[test]
fn profiler_harness_args_require_profile_sentinel() {
    let ignored_harness_args =
        ProfilerCliArgs::from_env_and_args(None, &["--solver", "xpbd:gpu"], false);
    assert!(ignored_harness_args.solver.is_none());

    let forwarded_args = ProfilerCliArgs::from_env_and_args(
        None,
        &["profile_solvers", "--profile", "--solver", "xpbd:gpu"],
        false,
    );
    assert_eq!(forwarded_args.solver.as_deref(), Some("xpbd:gpu"));
}

#[test]
fn profiler_later_args_can_disable_dry_run() {
    let args = ProfilerCliArgs::from_env_and_args(
        Some("dry_run=true solver=dfsph"),
        &["--solver", "xpbd:gpu", "--dry-run=false"],
        true,
    );

    assert_eq!(args.solver.as_deref(), Some("xpbd:gpu"));
    assert_eq!(args.dry_run, Some(false));
}

#[test]
fn profiler_later_args_can_disable_discovery_flags() {
    let args = ProfilerCliArgs::from_env_and_args(
        Some("dry_run_json=true list_solvers=true help=true"),
        &[
            "--dry-run-json=false",
            "--list-solvers=false",
            "--help=false",
        ],
        true,
    );

    assert_eq!(args.dry_run_json, Some(false));
    assert_eq!(args.list_solvers, Some(false));
    assert_eq!(args.help, Some(false));
}

#[test]
fn profiler_cli_solver_overrides_expand_to_specs() {
    let args = ProfilerCliArgs::parse(&["--solvers", "mpm:jacobi-cg,dfsph,xpbd"])
        .expect("profiler args parse");
    assert_eq!(
        profile_solver_specs_with_env(&args, None, None),
        vec![
            SolverSpec::mpm(PressureSolverKind::JacobiCg),
            SolverSpec::Dfsph,
            SolverSpec::Xpbd {
                solver: XpbdSolverKind::Gpu
            },
        ]
    );
}

#[test]
fn profiler_cli_singular_solver_all_expands_to_runnable_specs() {
    let args = ProfilerCliArgs::parse(&["--solver", "all"]).expect("profiler args parse");
    assert_eq!(
        profile_solver_specs_with_env(&args, None, None),
        runnable_solver_specs()
    );
}

#[test]
fn profiler_output_path_for_solver_keeps_multi_solver_outputs_distinct() {
    let base = String::from("target/coffee-sim-profile.json");
    assert_eq!(
        output_path_for_solver(&base, SolverSpec::Dfsph, false),
        base
    );
    assert_eq!(
        output_path_for_solver(&base, SolverSpec::Dfsph, true),
        String::from("target/coffee-sim-profile-dfsph.json")
    );
    assert_eq!(
        output_path_for_solver(
            &base,
            SolverSpec::Xpbd {
                solver: XpbdSolverKind::Gpu
            },
            true,
        ),
        String::from("target/coffee-sim-profile-xpbd-gpu.json")
    );
}

#[test]
fn profiler_solver_run_metadata_records_requested_same_scene_set() {
    let base = String::from("target/profile.json");
    let solvers = vec![
        SolverSpec::mpm(PressureSolverKind::Rbgs),
        SolverSpec::Dfsph,
        SolverSpec::Xpbd {
            solver: XpbdSolverKind::Gpu,
        },
    ];
    let run = ProfilerRunConfig {
        scene: ProfileScene::CenterPour,
        warmup: 1,
        measured: 1,
        calibration: 1,
        cg_iterations: None,
        pressure_operator: PressureOperatorKind::Collocated,
        solver_ids: solvers.iter().copied().map(SolverSpec::id).collect(),
        base_output_path: &base,
        multiple_outputs: true,
    };

    let metadata = solver_run_metadata(&run, SolverSpec::Dfsph);
    assert_eq!(metadata.requested, vec!["mpm-rbgs", "dfsph", "xpbd-gpu"]);
    assert_eq!(metadata.current, "dfsph");
    assert_eq!(metadata.ordinal, 2);
    assert_eq!(metadata.count, 3);
    assert!(metadata.multiple_outputs);
}

#[test]
fn profiler_solver_settings_keep_scene_and_selected_solver_separate() {
    let base = String::from("target/profile.json");
    let run = ProfilerRunConfig {
        scene: ProfileScene::WaterBlock,
        warmup: 1,
        measured: 1,
        calibration: 1,
        cg_iterations: Some(17),
        pressure_operator: PressureOperatorKind::Collocated,
        solver_ids: vec!["mpm-sparse-cg".to_string()],
        base_output_path: &base,
        multiple_outputs: false,
    };

    let mpm = settings_for_solver(SolverSpec::mpm(PressureSolverKind::SparseCg), &run);
    assert_eq!(mpm.pressure_solver, PressureSolverKind::SparseCg);
    assert_eq!(mpm.pressure_operator, PressureOperatorKind::Collocated);
    assert_eq!(mpm.pressure_cg_iterations, 17);
    assert_eq!(
        mpm.grid_dims,
        ProfileScene::WaterBlock.mpm_settings().grid_dims
    );

    let dfsph = settings_for_solver(SolverSpec::Dfsph, &run);
    assert_eq!(
        dfsph.grid_dims, mpm.grid_dims,
        "backend comparisons should keep the selected scene geometry"
    );
    assert_eq!(
        dfsph.pressure_cg_iterations,
        ProfileScene::WaterBlock
            .mpm_settings()
            .pressure_cg_iterations,
        "non-MPM backend grid tail should inherit the scene pressure budget"
    );

    let xpbd = settings_for_solver(
        SolverSpec::Xpbd {
            solver: XpbdSolverKind::Gpu,
        },
        &run,
    );
    assert_eq!(
        xpbd.grid_dims, mpm.grid_dims,
        "XPBD backend should run on the same selected scene"
    );
}

#[test]
fn profiler_scenes_parse_shared_profile_scene_ids() {
    assert_eq!(
        "center_pour".parse::<ProfileScene>(),
        Ok(ProfileScene::CenterPour)
    );
    assert_eq!(
        "free-stream".parse::<ProfileScene>(),
        Ok(ProfileScene::FreeStream)
    );
    assert_eq!(
        "water_block".parse::<ProfileScene>(),
        Ok(ProfileScene::WaterBlock)
    );
    assert!("low_complexity_shortcut".parse::<ProfileScene>().is_err());
}

// ---------------------------------------------------------------------------
// Further cases
// ---------------------------------------------------------------------------

#[test]
fn solver_display_names_parse_back() {
    for solver in runnable_solver_specs() {
        assert_eq!(solver.display_name().parse::<SolverSpec>(), Ok(solver));
    }
    assert_eq!(SolverSpec::mpm(PressureSolverKind::JacobiCg).display_name(), "mpm:jacobi-cg");
    assert_eq!(SolverSpec::mpm(PressureSolverKind::JacobiCg).id(), "mpm-jacobi-cg");
    assert_eq!(SolverSpec::Dfsph.display_name(), "dfsph");
}

#[test]
fn solver_spec_errors_name_the_bad_part() {
    assert_eq!(
        "gpu-sim:rbgs".parse::<SolverSpec>(),
        Err("unknown simulation backend 'gpu-sim'; available backends: mpm, dfsph, xpbd".to_string())
    );
    assert_eq!(
        "dfsph:foam".parse::<SolverSpec>(),
        Err("unknown dfsph solver 'foam'; available solvers: water".to_string())
    );
    assert_eq!(
        "xpbd:cpu".parse::<SolverSpec>(),
        Err("unknown xpbd solver 'cpu'; available solvers: gpu".to_string())
    );
    assert_eq!(
        " MPM-3D : Sparse-CG ".parse::<SolverSpec>(),
        Ok(SolverSpec::mpm(PressureSolverKind::SparseCg))
    );
    assert_eq!("XPBD".parse::<SolverSpec>(), Ok(SolverSpec::Xpbd { solver: XpbdSolverKind::Gpu }));
    assert_eq!("mpm:jacobi".parse::<SolverSpec>().is_err(), true);
    assert_eq!("DFSPH-water".parse::<SimulationBackendKind>(), Ok(SimulationBackendKind::Dfsph));
}

#[test]
fn solver_selection_errors() {
    assert_eq!(
        try_parse_solver_specs(" , ,"),
        Err("no profiler solvers selected; use a solver spec like mpm:rbgs, dfsph, xpbd:gpu, or all".to_string())
    );
    assert!(try_parse_solver_specs("rbgs,nope").is_err());
    assert_eq!(
        parse_solver_specs(" ALL "),
        runnable_solver_specs()
    );
    assert_eq!(
        parse_solver_specs("dfsph, ,xpbd:gpu"),
        vec![SolverSpec::Dfsph, SolverSpec::Xpbd { solver: XpbdSolverKind::Gpu }]
    );
}

#[test]
fn solver_list_summary_is_exact() {
    assert_eq!(
        solver_list_summary(),
        "available profiler solvers:\n  mpm:rbgs\n  mpm:jacobi-cg\n  mpm:sparse-cg\n  dfsph\n  xpbd:gpu\n  all\n"
    );
}

#[test]
fn timestamp_capacities_have_exact_values() {
    assert_eq!(xpbd_profiled_gpu_passes_per_substep(), 32);
    assert_eq!(xpbd_profiler_timestamp_query_capacity(0), 78);
    assert_eq!(xpbd_profiler_timestamp_query_capacity(10), 780);
    assert_eq!(dfsph_profiler_timestamp_query_capacity(0), 80);
    assert_eq!(dfsph_profiler_timestamp_query_capacity(3), 240);

    let mut settings = MpmSettings::default_v60();
    assert_eq!(profiler_timestamp_query_capacity(&settings, 0), 64);
    settings.pressure_solver = PressureSolverKind::SparseCg;
    settings.pressure_cg_iterations = 10;
    assert_eq!(profiler_timestamp_query_capacity(&settings, 0), (17 + 6 + 40) * 2 + 8);
    assert_eq!(pressure_solver_iterations_per_substep(&settings, 0), 10);
    settings.pressure_solver = PressureSolverKind::Rbgs;
    assert_eq!(pressure_solver_iterations_per_substep(&settings, 55), 55);
    assert_eq!(pressure_solver_iterations_per_substep(&settings, 3), 40);
}

#[test]
fn output_paths_keep_directories_and_extensions() {
    let rbgs = SolverSpec::mpm(PressureSolverKind::Rbgs);
    assert_eq!(output_path_for_solver("report", rbgs, true), "report-mpm-rbgs");
    assert_eq!(output_path_for_solver("a.b/c.d.json", rbgs, true), "a.b/c.d-mpm-rbgs.json");
    assert_eq!(output_path_for_solver("out/.hidden", rbgs, true), "out/.hidden-mpm-rbgs");
    assert_eq!(output_path_for_solver("out/", rbgs, true), "out-mpm-rbgs");
    assert_eq!(output_path_for_solver("a/..", rbgs, true), "a/../coffee-sim-profile-mpm-rbgs");
    assert_eq!(output_path_for_solver("", rbgs, true), "coffee-sim-profile-mpm-rbgs");
    assert_eq!(output_path_for_solver("/", rbgs, true), "/coffee-sim-profile-mpm-rbgs");
    assert_eq!(output_path_for_solver("out/", rbgs, false), "out/");
}

#[test]
fn dry_run_metadata_describes_each_backend() {
    let settings = ProfileScene::CenterPour.mpm_settings();
    let mpm = dry_run_solver_metadata(SolverSpec::mpm(PressureSolverKind::Rbgs), &settings);
    assert_eq!(mpm.backend, "mpm");
    let pressure = mpm.pressure.expect("pressure section");
    assert_eq!(pressure.kind, "rbgs");
    assert_eq!(pressure.operator, "collocated");
    assert_eq!(pressure.iterations_per_substep, 40);
    assert!(mpm.dfsph.is_none() && mpm.xpbd.is_none());

    let dfsph = dry_run_solver_metadata(SolverSpec::Dfsph, &settings);
    let d = dfsph.dfsph.expect("dfsph section");
    assert_eq!(d.kind, "water");
    assert_eq!(d.divergence_iterations_per_substep, 1);
    assert_eq!(d.density_iterations_per_substep, 2);
    assert_eq!(d.grid_pressure_kind, "rbgs");

    let xpbd = dry_run_solver_metadata(SolverSpec::Xpbd { solver: XpbdSolverKind::Gpu }, &settings);
    let x = xpbd.xpbd.expect("xpbd section");
    assert_eq!(x.kind, "gpu");
    assert_eq!(x.constraint_iterations_per_substep, XPBD_CONSTRAINT_ITERATIONS);
}

#[test]
fn dry_run_plan_matches_selection() {
    let args = ProfilerCliArgs::from_env_and_args(
        None,
        &["--scene", "center_pour", "--solvers", "all", "--out", "target/dry-profile.json", "--dry-run-json"],
        true,
    );
    assert_eq!(args.dry_run_json, Some(true));
    let selection = ProfileSelection::from_cli_with_env(&args, &ProfilerEnv::default());
    let plan = selection.dry_run_plan();
    assert_eq!(plan.schema_version, 1);
    assert_eq!(plan.mode, "dry_run");
    assert_eq!(plan.scene, "center_pour");
    assert_eq!(plan.solvers.len(), 5);
    assert_eq!(plan.solvers[0].solver, "mpm:rbgs");
    assert_eq!(plan.solvers[4].solver, "xpbd:gpu");
    assert_eq!(plan.solvers[0].metadata.backend, "mpm");
    assert_eq!(plan.solvers[0].grid_dims, [80, 115, 80]);
    assert_eq!(plan.solvers[0].pressure_rbgs_pairs, 40);
    assert_eq!(plan.solvers[0].pressure_cg_iterations, 40);
    assert_eq!(plan.solvers[3].output_path, "target/dry-profile-dfsph.json");
    assert_eq!(plan.warmup_frames, 60);
    assert_eq!(plan.measured_frames, 120);
    assert_eq!(plan.calibration_frames, 30);
}

#[test]
fn cli_option_errors() {
    assert_eq!(
        ProfilerCliArgs::parse(&["--frames"]).unwrap_err(),
        "missing value for profiler option --frames"
    );
    assert_eq!(
        ProfilerCliArgs::parse(&["operator"]).unwrap_err(),
        "missing value for profiler option --pressure-operator"
    );
    assert_eq!(
        ProfilerCliArgs::parse(&["--warmup", "0"]).unwrap_err(),
        "--warmup must be a positive integer, got '0'"
    );
    assert_eq!(
        ProfilerCliArgs::parse(&["cal=x"]).unwrap_err(),
        "--cal must be a positive integer, got 'x'"
    );
    assert_eq!(
        ProfilerCliArgs::parse(&["--help=maybe"]).unwrap_err(),
        "--dry-run must be a boolean when a value is provided, got 'maybe'"
    );
    assert!(ProfilerCliArgs::parse(&["--bogus"])
        .unwrap_err()
        .starts_with("unknown profiler option '--bogus'; supported options: --scene,"));
    assert!(ProfilerCliArgs::try_from_env_and_args(Some("frames=0"), &[], false).is_err());
}

#[test]
fn cli_values_and_switches() {
    let args = ProfilerCliArgs::parse(&["--out=a=b", "-h", "--measured", "+9", "--dry-run", "--operator", "staggered"])
        .expect("parse");
    assert_eq!(args.output.as_deref(), Some("a=b"));
    assert_eq!(args.help, Some(true));
    assert_eq!(args.measured, Some(9));
    assert_eq!(args.dry_run, Some(true));
    assert_eq!(args.pressure_operator.as_deref(), Some("staggered"));
    assert_eq!(parse_bool(" YES "), Ok(true));
    assert_eq!(parse_bool("off"), Ok(false));
    assert_eq!(parse_optional_bool(None), Ok(true));
    assert_eq!(parse_positive_u32("--frames", "4294967295"), Ok(4294967295));
    assert!(parse_positive_u32("--frames", "4294967296").is_err());
    assert_eq!(env_u32_value(Some("12".to_string())), Some(12));
    assert_eq!(env_u32_value(Some("0".to_string())), None);
    assert_eq!(env_u32_value(Some(" 12".to_string())), None);
    assert_eq!(env_u32_value(None), None);
}

#[test]
fn merge_lets_later_options_win() {
    let mut earlier = ProfilerCliArgs::parse(&["--scene", "free_stream", "--frames", "5"]).expect("parse");
    let later = ProfilerCliArgs::parse(&["--frames", "9", "--out", "x.json"]).expect("parse");
    earlier.merge(later);
    assert_eq!(earlier.scene.as_deref(), Some("free_stream"));
    assert_eq!(earlier.measured, Some(9));
    assert_eq!(earlier.output.as_deref(), Some("x.json"));
    let mut unchanged = ProfilerCliArgs::parse(&["--solver", "dfsph"]).expect("parse");
    unchanged.merge(ProfilerCliArgs::default());
    assert_eq!(unchanged.solver.as_deref(), Some("dfsph"));
}

#[test]
fn arguments_before_the_sentinel_are_ignored() {
    let with_prefix = ProfilerCliArgs::from_env_and_args(
        None,
        &["--bogus", "x", "--profile-args", "--scene", "water_block"],
        true,
    );
    assert_eq!(with_prefix.scene.as_deref(), Some("water_block"));
    assert!(ProfilerCliArgs::try_from_env_and_args(None, &["--bogus"], true).is_err());
    assert!(ProfilerCliArgs::try_from_env_and_args(None, &["--bogus"], false).is_ok());
}

#[test]
fn selection_defaults_and_errors() {
    let selection =
        ProfileSelection::from_cli_with_env(&ProfilerCliArgs::default(), &ProfilerEnv::default());
    assert_eq!(selection.scene, ProfileScene::CenterPour);
    assert_eq!(selection.solvers, vec![SolverSpec::mpm(PressureSolverKind::Rbgs)]);
    assert_eq!(selection.pressure_operator, PressureOperatorKind::Collocated);
    assert_eq!((selection.warmup, selection.measured, selection.calibration), (60, 120, 30));
    assert_eq!(selection.cg_iterations, None);
    assert_eq!(selection.base_output_path, "target/coffee-sim-profile.json");
    assert!(!selection.multiple_outputs);

    let env = ProfilerEnv {
        warmup: Some("0".to_string()),
        frames: Some("7".to_string()),
        cg_iterations: Some("11".to_string()),
        ..ProfilerEnv::default()
    };
    let selection = ProfileSelection::from_cli_with_env(&ProfilerCliArgs::default(), &env);
    assert_eq!(selection.warmup, 60);
    assert_eq!(selection.measured, 7);
    assert_eq!(selection.cg_iterations, Some(11));

    let bad_scene = ProfilerEnv { scene: Some("moon".to_string()), ..ProfilerEnv::default() };
    assert_eq!(
        ProfileSelection::try_from_cli_with_env(&ProfilerCliArgs::default(), &bad_scene).err(),
        Some("unknown profile scene 'moon'; available scenes: center_pour, free_stream, water_block".to_string())
    );
    let staggered =
        ProfilerEnv { pressure_operator: Some("staggered".to_string()), ..ProfilerEnv::default() };
    assert!(ProfileSelection::try_from_cli_with_env(&ProfilerCliArgs::default(), &staggered)
        .err()
        .expect("staggered is refused")
        .contains("not ported"));
}

#[test]
fn option_spellings_give_the_same_options() {
    let a = ProfilerCliArgs::parse(&["--cg-iterations", "12"]).expect("parse");
    let b = ProfilerCliArgs::parse(&["--cg-iterations=12"]).expect("parse");
    let c = ProfilerCliArgs::parse(&["cg_iterations=12"]).expect("parse");
    assert_eq!(a.cg_iterations, Some(12));
    assert_eq!(b.cg_iterations, Some(12));
    assert_eq!(c.cg_iterations, Some(12));
    let d = ProfilerCliArgs::parse(&["--list-solvers=no"]).expect("parse");
    let e = ProfilerCliArgs::parse(&["list_solvers=no"]).expect("parse");
    assert_eq!(d.list_solvers, Some(false));
    assert_eq!(e.list_solvers, Some(false));
}

#[test]
fn timestamp_slots_are_handed_out_in_pairs() {
    let mut rec = FrameRecorder::new(Some(4));
    assert_eq!(rec.writes_mpm(MpmPassLabel::P2G), Some((0, 1)));
    assert_eq!(
        rec.writes(ProfilePassLabel::new("xpbd.solve", "xpbd_solve", "xpbd")),
        Some((2, 3))
    );
    assert_eq!(rec.next(), 4);
    assert_eq!(
        rec.try_reserve(ProfilePassLabel::new("extra", "extra", "extra")),
        Err("query set capacity 4 exceeded (6 slots needed); increase the profiler timestamp capacity estimate".to_string())
    );
    assert_eq!(rec.next(), 4);
    let ids: Vec<&str> = rec.scopes().iter().map(|s| s.label.id.as_str()).collect();
    assert_eq!(ids, vec!["transfer.p2g", "xpbd.solve"]);
    assert_eq!(rec.scopes()[0].label.display, "p2g");
    assert_eq!(rec.scopes()[0].label.category, "transfer");
    assert_eq!(rec.scope_tick_deltas(&[10, 15, 20, 18]), vec![5, 0]);

    let mut untimed = FrameRecorder::new(None);
    assert_eq!(untimed.writes_mpm(MpmPassLabel::G2P), None);
    assert_eq!(untimed.next(), 0);
    assert!(untimed.scopes().is_empty());
    assert!(!untimed.is_timed());
    assert_eq!(untimed.capacity(), 0);
}

#[test]
fn mpm_timestamp_budget_covers_instrumented_substep() {
    use_budget_case(PressureSolverKind::SparseCg, PressureOperatorKind::Collocated, 10, true);
    use_budget_case(PressureSolverKind::Rbgs, PressureOperatorKind::Collocated, 40, true);
    use_budget_case(PressureSolverKind::JacobiCg, PressureOperatorKind::Collocated, 40, true);
    // CG on the staggered operator is expanded pass by pass but budgeted as
    // one solve.
    use_budget_case(PressureSolverKind::JacobiCg, PressureOperatorKind::Staggered, 3, false);
}

fn use_budget_case(
    kind: PressureSolverKind,
    operator: PressureOperatorKind,
    cg_iterations: u32,
    fits: bool,
) {
    let mut settings = MpmSettings::default_v60();
    settings.pressure_solver = kind;
    settings.pressure_operator = operator;
    settings.pressure_cg_iterations = cg_iterations;
    let dispatch = coffee_sim_wasm::schedule::MpmDispatchSizes {
        cell_wg: 9,
        particle_wg: 2,
        bed_wg: 1,
        metrics_wg: 1,
    };
    let ctx = coffee_sim_wasm::pressure::PressureContext {
        kind,
        operator,
        cell_wg: 9,
        rbgs_pairs: 40,
        cg_iterations,
    };
    let ops = coffee_sim_wasm::schedule::encode_mpm_substep_schedule(dispatch, ctx);
    let timed = ops
        .iter()
        .filter(|op| !matches!(op, coffee_sim_wasm::schedule::MpmScheduleOp::CopyBufferToBuffer { .. }))
        .count() as u32;
    let mut rec = FrameRecorder::new(Some(profiler_timestamp_query_capacity(&settings, 40)));
    let mut overflow = false;
    for _ in 0..timed {
        if rec
            .try_reserve(ProfilePassLabel::new("pass", "pass", "pass"))
            .is_err()
        {
            overflow = true;
        }
    }
    assert_eq!(!overflow, fits);
}
