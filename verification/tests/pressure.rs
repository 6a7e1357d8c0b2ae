use coffee_sim_wasm::pressure::{
    estimated_timestamp_scopes, iterations_per_substep, pressure_family, PressureContext,
    PressureFamily, PressureOperatorKind, PressureSolverKind,
};

#[test]
fn pressure_solver_kind_parses_registered_solvers() {
    assert_eq!("rbgs".parse(), Ok(PressureSolverKind::Rbgs));
    assert_eq!("cg".parse(), Ok(PressureSolverKind::JacobiCg));
    assert_eq!("jacobi-cg".parse(), Ok(PressureSolverKind::JacobiCg));
    assert_eq!("sparse-cg".parse(), Ok(PressureSolverKind::SparseCg));
    assert_eq!(
        PressureSolverKind::ALL,
        [
            PressureSolverKind::Rbgs,
            PressureSolverKind::JacobiCg,
            PressureSolverKind::SparseCg
        ]
    );
}

#[test]
fn pressure_operator_kind_parses_current_operator_and_rejects_unported_staggered() {
    assert_eq!("collocated".parse(), Ok(PressureOperatorKind::Collocated));
    assert_eq!(
        "cell-centered".parse(),
        Ok(PressureOperatorKind::Collocated)
    );
    assert_eq!(
        PressureOperatorKind::ALL,
        [PressureOperatorKind::Collocated]
    );
    assert_eq!(PressureOperatorKind::Staggered.id(), "staggered");
    let err = "staggered"
        .parse::<PressureOperatorKind>()
        .expect_err("staggered operator is intentionally not runnable yet");
    assert!(err.contains("not ported"));
}

#[test]
fn pressure_names_ignore_case_and_whitespace() {
    assert_eq!(" Pressure-RBGS\t".parse(), Ok(PressureSolverKind::Rbgs));
    assert_eq!("MPM-SPARSE-CG".parse(), Ok(PressureSolverKind::SparseCg));
    assert_eq!("".parse(), Ok(PressureOperatorKind::Collocated));
    assert_eq!("Cell_Centered".parse(), Ok(PressureOperatorKind::Collocated));
}

#[test]
fn unknown_pressure_names_list_the_alternatives() {
    assert_eq!(
        "Multigrid ".parse::<PressureSolverKind>(),
        Err("unknown pressure solver 'multigrid'; available solvers: rbgs, jacobi-cg, sparse-cg".to_string())
    );
    assert_eq!(
        "mac".parse::<PressureOperatorKind>(),
        Err("unknown pressure operator 'mac'; available operators: collocated".to_string())
    );
}

#[test]
fn pressure_kind_ids_round_trip() {
    for kind in PressureSolverKind::ALL {
        assert_eq!(kind.id().parse(), Ok(kind));
    }
    assert_eq!(PressureSolverKind::JacobiCg.id(), "jacobi-cg");
}

fn ctx(kind: PressureSolverKind, operator: PressureOperatorKind) -> PressureContext {
    PressureContext {
        kind,
        operator,
        cell_wg: 3,
        rbgs_pairs: 40,
        cg_iterations: 25,
    }
}

#[test]
fn pressure_budgets_follow_the_solver() {
    let c = PressureOperatorKind::Collocated;
    assert_eq!(iterations_per_substep(ctx(PressureSolverKind::Rbgs, c)), 40);
    assert_eq!(iterations_per_substep(ctx(PressureSolverKind::JacobiCg, c)), 25);
    assert_eq!(iterations_per_substep(ctx(PressureSolverKind::SparseCg, c)), 25);
    assert_eq!(estimated_timestamp_scopes(ctx(PressureSolverKind::Rbgs, c)), 4);
    assert_eq!(estimated_timestamp_scopes(ctx(PressureSolverKind::JacobiCg, c)), 4);
    assert_eq!(estimated_timestamp_scopes(ctx(PressureSolverKind::SparseCg, c)), 106);
}

#[test]
fn pressure_family_follows_operator_then_solver() {
    let c = PressureOperatorKind::Collocated;
    let s = PressureOperatorKind::Staggered;
    assert_eq!(pressure_family(ctx(PressureSolverKind::Rbgs, c)), PressureFamily::Rbgs);
    assert_eq!(pressure_family(ctx(PressureSolverKind::SparseCg, c)), PressureFamily::JacobiCg);
    assert_eq!(pressure_family(ctx(PressureSolverKind::Rbgs, s)), PressureFamily::StagedStaggered);
}
