use coffee_sim_wasm::pressure::{PressureContext, PressureOperatorKind, PressureSolverKind};
use coffee_sim_wasm::schedule::{
    compute_pass_commands, dispatch_size, encode_mpm_substep_schedule, pressure_solve_dispatches,
    production_steps, substep_dispatch_sizes, BufferId, ComputeCommand, MpmDispatch,
    MpmDispatchSizes, MpmPassLabel, MpmScheduleOp, PipelineId, ProductionStep, SolveDispatch,
};

#[test]
fn dispatch_size_zero_count_returns_zero() {
    assert_eq!(dispatch_size(0, 64), 0);
}

#[test]
fn dispatch_size_rounds_up() {
    assert_eq!(dispatch_size(1, 64), 1);
    assert_eq!(dispatch_size(64, 64), 1);
    assert_eq!(dispatch_size(65, 64), 2);
    assert_eq!(dispatch_size(128, 64), 2);
    assert_eq!(dispatch_size(129, 64), 3);
}

#[test]
fn dispatch_size_covers_the_largest_count() {
    assert_eq!(dispatch_size(u32::MAX, 64), 67_108_864);
    assert_eq!(dispatch_size(u32::MAX, 1), u32::MAX);
}

fn solve_ctx(kind: PressureSolverKind, operator: PressureOperatorKind) -> PressureContext {
    PressureContext {
        kind,
        operator,
        cell_wg: 5,
        rbgs_pairs: 2,
        cg_iterations: 1,
    }
}

#[test]
fn substep_dispatch_sizes_round_up_each_kind() {
    let d = substep_dispatch_sizes([80, 115, 80], 100, 30);
    assert_eq!(
        d,
        MpmDispatchSizes {
            cell_wg: 11_500,
            particle_wg: 3,
            bed_wg: 1,
            metrics_wg: 1,
        }
    );
}

#[test]
fn rbgs_solve_sweeps_red_then_black() {
    let d = pressure_solve_dispatches(solve_ctx(PressureSolverKind::Rbgs, PressureOperatorKind::Collocated));
    let red = SolveDispatch { pipeline: PipelineId::RbgsRed, workgroups: 5 };
    let black = SolveDispatch { pipeline: PipelineId::RbgsBlack, workgroups: 5 };
    assert_eq!(d, vec![red, black, red, black]);
}

#[test]
fn sparse_solve_finalises_its_dispatch_before_iterating() {
    let d = pressure_solve_dispatches(solve_ctx(PressureSolverKind::SparseCg, PressureOperatorKind::Collocated));
    let pipelines: Vec<PipelineId> = d.iter().map(|x| x.pipeline).collect();
    assert_eq!(
        pipelines,
        vec![
            PipelineId::CgInit,
            PipelineId::CgActiveFinalizeDispatch,
            PipelineId::CgWarmstart,
            PipelineId::CgSparseMatvec,
            PipelineId::CgSparseApplyAlpha,
            PipelineId::CgSparseUpdateDir,
            PipelineId::CgFinishIteration,
        ]
    );
    assert_eq!(d[1].workgroups, 1);
    assert_eq!(d[6].workgroups, 1);
    assert_eq!(d[3].workgroups, 5);
}

#[test]
fn staggered_cg_uses_its_own_init_and_matvec() {
    let d = pressure_solve_dispatches(solve_ctx(PressureSolverKind::JacobiCg, PressureOperatorKind::Staggered));
    assert_eq!(d[0].pipeline, PipelineId::StaggeredCgInit);
    assert_eq!(d[2].pipeline, PipelineId::StaggeredCgMatvec);
    assert_eq!(d.len(), 6);
    let collocated = pressure_solve_dispatches(solve_ctx(PressureSolverKind::JacobiCg, PressureOperatorKind::Collocated));
    assert_eq!(collocated[0].pipeline, PipelineId::CgInit);
    assert_eq!(collocated[2].pipeline, PipelineId::CgMatvec);
}

#[test]
fn substep_schedule_orders_the_passes() {
    let dispatch = MpmDispatchSizes {
        cell_wg: 7,
        particle_wg: 3,
        bed_wg: 2,
        metrics_wg: 1,
    };
    let ops = encode_mpm_substep_schedule(dispatch, solve_ctx(PressureSolverKind::Rbgs, PressureOperatorKind::Collocated));
    let labels: Vec<MpmPassLabel> = ops
        .iter()
        .map(|op| match op {
            MpmScheduleOp::Pipeline { label, .. } => *label,
            MpmScheduleOp::PressureSolve { label, .. } => *label,
            MpmScheduleOp::CopyBufferToBuffer { .. } => panic!("no copy expected"),
        })
        .collect();
    assert_eq!(
        labels,
        vec![
            MpmPassLabel::MetricsClear,
            MpmPassLabel::BedLookupClear,
            MpmPassLabel::BedLookupScatter,
            MpmPassLabel::P2G,
            MpmPassLabel::GridUpdate,
            MpmPassLabel::BoundaryProject,
            MpmPassLabel::PressureClassify,
            MpmPassLabel::PressureSolve,
            MpmPassLabel::PressureProject,
            MpmPassLabel::BoundaryProject,
            MpmPassLabel::PressureResidual,
            MpmPassLabel::PackingPrepare,
            MpmPassLabel::PackingApply,
            MpmPassLabel::BoundaryProject,
            MpmPassLabel::ViscosityPrepare,
            MpmPassLabel::ViscosityApply,
            MpmPassLabel::BoundaryProject,
            MpmPassLabel::G2P,
            MpmPassLabel::BedCoupling,
            MpmPassLabel::ExtractionAdvect,
            MpmPassLabel::BedDynamics,
            MpmPassLabel::PrepareRender,
        ]
    );
}

#[test]
fn empty_substep_skips_particle_and_bed_passes() {
    let dispatch = MpmDispatchSizes {
        cell_wg: 7,
        particle_wg: 0,
        bed_wg: 0,
        metrics_wg: 0,
    };
    let ops = encode_mpm_substep_schedule(dispatch, solve_ctx(PressureSolverKind::JacobiCg, PressureOperatorKind::Collocated));
    assert_eq!(ops.len(), 14);
    assert_eq!(
        ops[0],
        MpmScheduleOp::Pipeline {
            label: MpmPassLabel::BedLookupClear,
            pipeline: PipelineId::BedLookupClear,
            dispatch: MpmDispatch::Direct(7),
        }
    );
    assert_eq!(
        ops[3],
        MpmScheduleOp::Pipeline {
            label: MpmPassLabel::PressureClassify,
            pipeline: PipelineId::CgClassifyCells,
            dispatch: MpmDispatch::Direct(7),
        }
    );
}

#[test]
fn sparse_schedule_copies_dispatch_args_and_splits_production_passes() {
    let dispatch = MpmDispatchSizes {
        cell_wg: 7,
        particle_wg: 0,
        bed_wg: 0,
        metrics_wg: 0,
    };
    let ops = encode_mpm_substep_schedule(dispatch, solve_ctx(PressureSolverKind::SparseCg, PressureOperatorKind::Collocated));
    assert_eq!(ops.len(), 4 + 3 + 1 + 4 + 9);
    assert_eq!(
        ops[7],
        MpmScheduleOp::CopyBufferToBuffer {
            src: BufferId::Metrics,
            src_offset: 44,
            dst: BufferId::PressureDispatchArgs,
            dst_offset: 0,
            size: 12,
        }
    );
    assert_eq!(
        ops[8],
        MpmScheduleOp::Pipeline {
            label: MpmPassLabel::PressureSolve,
            pipeline: PipelineId::CgSparseMatvec,
            dispatch: MpmDispatch::IndirectPressure { offset: 0 },
        }
    );
    let steps = production_steps(&ops);
    assert_eq!(
        steps,
        vec![
            ProductionStep::ComputePass { start: 0, end: 7 },
            ProductionStep::Copy { index: 7 },
            ProductionStep::ComputePass { start: 8, end: 21 },
        ]
    );
}

#[test]
fn production_steps_of_copy_only_schedules() {
    let copy = MpmScheduleOp::CopyBufferToBuffer {
        src: BufferId::Metrics,
        src_offset: 0,
        dst: BufferId::PressureDispatchArgs,
        dst_offset: 0,
        size: 4,
    };
    assert_eq!(
        production_steps(&vec![copy, copy]),
        vec![ProductionStep::Copy { index: 0 }, ProductionStep::Copy { index: 1 }]
    );
    assert_eq!(production_steps(&Vec::new()), Vec::new());
}

#[test]
fn compute_pass_expands_pressure_solves() {
    let ops = vec![
        MpmScheduleOp::Pipeline {
            label: MpmPassLabel::GridUpdate,
            pipeline: PipelineId::GridUpdate,
            dispatch: MpmDispatch::Direct(9),
        },
        MpmScheduleOp::PressureSolve {
            label: MpmPassLabel::PressureSolve,
            ctx: PressureContext {
                kind: PressureSolverKind::Rbgs,
                operator: PressureOperatorKind::Collocated,
                cell_wg: 9,
                rbgs_pairs: 1,
                cg_iterations: 0,
            },
        },
        MpmScheduleOp::CopyBufferToBuffer {
            src: BufferId::Metrics,
            src_offset: 0,
            dst: BufferId::PressureDispatchArgs,
            dst_offset: 0,
            size: 12,
        },
    ];
    assert_eq!(
        compute_pass_commands(&ops),
        vec![
            ComputeCommand { pipeline: PipelineId::GridUpdate, dispatch: MpmDispatch::Direct(9) },
            ComputeCommand { pipeline: PipelineId::RbgsRed, dispatch: MpmDispatch::Direct(9) },
            ComputeCommand { pipeline: PipelineId::RbgsBlack, dispatch: MpmDispatch::Direct(9) },
        ]
    );
}

#[test]
fn pass_labels_have_ids_names_and_categories() {
    assert_eq!(MpmPassLabel::P2G.id(), "transfer.p2g");
    assert_eq!(MpmPassLabel::P2G.display(), "p2g");
    assert_eq!(MpmPassLabel::P2G.category(), "transfer");
    assert_eq!(MpmPassLabel::PressureClassify.display(), "classify_cells");
    assert_eq!(MpmPassLabel::ExtractionAdvect.id(), "bed.extraction_advect");
    assert_eq!(MpmPassLabel::ExtractionAdvect.category(), "bed");
    assert_eq!(MpmPassLabel::MetricsClear.category(), "metrics");
}

#[test]
fn scheduled_sparse_solve_runs_the_same_kernels_as_the_single_pass_solve() {
    for (kind, operator) in [
        (PressureSolverKind::SparseCg, PressureOperatorKind::Collocated),
        (PressureSolverKind::JacobiCg, PressureOperatorKind::Staggered),
    ] {
        let mut ctx = solve_ctx(kind, operator);
        ctx.cg_iterations = 3;
        let dispatch = MpmDispatchSizes {
            cell_wg: 5,
            particle_wg: 0,
            bed_wg: 0,
            metrics_wg: 0,
        };
        let ops = encode_mpm_substep_schedule(dispatch, ctx);
        let scheduled: Vec<PipelineId> = ops[4..ops.len() - 9]
            .iter()
            .filter_map(|op| match op {
                MpmScheduleOp::Pipeline { pipeline, .. } => Some(*pipeline),
                _ => None,
            })
            .collect();
        let single: Vec<PipelineId> = pressure_solve_dispatches(ctx)
            .iter()
            .map(|d| d.pipeline)
            .collect();
        assert_eq!(scheduled, single);
    }
}

#[test]
fn sparse_timestamp_scopes_cover_every_launch() {
    let mut ctx = solve_ctx(PressureSolverKind::SparseCg, PressureOperatorKind::Collocated);
    ctx.cg_iterations = 7;
    assert_eq!(
        coffee_sim_wasm::pressure::estimated_timestamp_scopes(ctx) as usize,
        pressure_solve_dispatches(ctx).len() + 3
    );
}

#[test]
fn pass_label_ids_are_unique() {
    let labels = [
        MpmPassLabel::MetricsClear,
        MpmPassLabel::BedLookupClear,
        MpmPassLabel::BedLookupScatter,
        MpmPassLabel::P2G,
        MpmPassLabel::GridUpdate,
        MpmPassLabel::BoundaryProject,
        MpmPassLabel::PressureClassify,
        MpmPassLabel::PressureSolve,
        MpmPassLabel::PressureProject,
        MpmPassLabel::PressureResidual,
        MpmPassLabel::PackingPrepare,
        MpmPassLabel::PackingApply,
        MpmPassLabel::ViscosityPrepare,
        MpmPassLabel::ViscosityApply,
        MpmPassLabel::G2P,
        MpmPassLabel::BedCoupling,
        MpmPassLabel::ExtractionAdvect,
        MpmPassLabel::BedDynamics,
        MpmPassLabel::PrepareRender,
    ];
    let mut ids: Vec<&str> = labels.iter().map(|l| l.id()).collect();
    ids.sort();
    ids.dedup();
    assert_eq!(ids.len(), labels.len());
}
