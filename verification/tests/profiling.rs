use coffee_sim_wasm::profiling::{
    env_flag_value, parse_solver_specs, solver_list_summary, solver_run_metadata, SolverSpec,
};

#[test]
fn profiler_solver_parser_accepts_mpm_and_all() {
    assert_eq!(parse_solver_specs("mpm"), Ok(vec![SolverSpec::Mpm]));
    assert_eq!(parse_solver_specs("mpm:rbgs"), Ok(vec![SolverSpec::Mpm]));
    assert_eq!(parse_solver_specs("all"), Ok(vec![SolverSpec::Mpm]));
}

#[test]
fn profiler_solver_parser_rejects_unregistered_solvers() {
    assert!("xpbd".parse::<SolverSpec>().is_err());
    assert!(parse_solver_specs("dfsph").is_err());
}

#[test]
fn solver_run_metadata_tracks_single_mpm_run() {
    let solvers = parse_solver_specs("all").unwrap();
    let metadata = solver_run_metadata(&solvers, SolverSpec::Mpm);
    assert_eq!(metadata.requested, vec!["mpm"]);
    assert_eq!(metadata.current, "mpm");
    assert_eq!(metadata.ordinal, 1);
    assert_eq!(metadata.count, 1);
    assert!(!metadata.multiple_outputs);
}

#[test]
fn shipped_solver_lists_skip_blanks_and_report_unknowns() {
    assert_eq!(parse_solver_specs(" MPM , ,rbgs"), Ok(vec![SolverSpec::Mpm, SolverSpec::Mpm]));
    assert_eq!(parse_solver_specs(""), Ok(vec![]));
    assert_eq!(
        parse_solver_specs("mpm,Dfsph"),
        Err("unknown profiler solver 'dfsph'; available solvers: mpm".to_string())
    );
    assert_eq!("".parse::<SolverSpec>(), Ok(SolverSpec::Mpm));
}

#[test]
fn shipped_solver_list_summary_is_exact() {
    assert_eq!(solver_list_summary(), "available profiler solvers:\n  mpm\n  all\n");
}

#[test]
fn repeated_solvers_keep_first_position() {
    let solvers = vec![SolverSpec::Mpm, SolverSpec::Mpm];
    let metadata = solver_run_metadata(&solvers, SolverSpec::Mpm);
    assert_eq!(metadata.ordinal, 1);
    assert_eq!(metadata.count, 2);
    assert!(metadata.multiple_outputs);
    let none: Vec<SolverSpec> = Vec::new();
    assert_eq!(solver_run_metadata(&none, SolverSpec::Mpm).ordinal, 1);
}

#[test]
fn env_flags_accept_exact_spellings() {
    assert!(env_flag_value(Some("1")));
    assert!(env_flag_value(Some("TRUE")));
    assert!(env_flag_value(Some("yes")));
    assert!(!env_flag_value(Some("True")));
    assert!(!env_flag_value(Some(" 1")));
    assert!(!env_flag_value(None));
}
