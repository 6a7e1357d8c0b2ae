//! The order of GPU compute passes in one simulation substep.
//!
//! A schedule is a list of operations over named pipelines; whoever owns the
//! GPU objects walks it and issues the matching dispatches and copies.
use vstd::prelude::*;

use crate::pressure::{
    pressure_family, pressure_family_spec, PressureContext, PressureFamily, PressureOperatorKind,
    PressureSolverKind,
};

verus! {

/// Threads per workgroup of every MPM compute kernel.
pub const NUM_THREADS: u32 = 64;

/// Number of `u32` slots of the metrics buffer the metrics clear pass resets.
pub const METRICS_SLOT_COUNT: u32 = 8;

/// Slot of the metrics buffer where the sparse pressure solve leaves the x
/// workgroup count of its indirect dispatch (followed by y and z).
pub const METRIC_PRESSURE_ACTIVE_WORKGROUPS_X_IDX: u64 = 11;

/// A labelled pass of the substep, used to group timings.
#[derive(Clone, Copy, Debug, PartialEq, Eq, Structural)]
pub enum MpmPassLabel {
    MetricsClear,
    BedLookupClear,
    BedLookupScatter,
    P2G,
    GridUpdate,
    BoundaryProject,
    PressureClassify,
    PressureSolve,
    PressureProject,
    PressureResidual,
    PackingPrepare,
    PackingApply,
    ViscosityPrepare,
    ViscosityApply,
    G2P,
    BedCoupling,
    ExtractionAdvect,
    BedDynamics,
    PrepareRender,
}

pub open spec fn label_id(l: MpmPassLabel) -> Seq<char> {
    match l {
        MpmPassLabel::MetricsClear => "metrics.clear"@,
        MpmPassLabel::BedLookupClear => "bed.lookup_clear"@,
        MpmPassLabel::BedLookupScatter => "bed.lookup_scatter"@,
        MpmPassLabel::P2G => "transfer.p2g"@,
        MpmPassLabel::GridUpdate => "grid.update"@,
        MpmPassLabel::BoundaryProject => "boundary.project"@,
        MpmPassLabel::PressureClassify => "pressure.classify"@,
        MpmPassLabel::PressureSolve => "pressure.solve"@,
        MpmPassLabel::PressureProject => "pressure.project"@,
        MpmPassLabel::PressureResidual => "pressure.residual"@,
        MpmPassLabel::PackingPrepare => "packing.prepare"@,
        MpmPassLabel::PackingApply => "packing.apply"@,
        MpmPassLabel::ViscosityPrepare => "viscosity.prepare"@,
        MpmPassLabel::ViscosityApply => "viscosity.apply"@,
        MpmPassLabel::G2P => "transfer.g2p"@,
        MpmPassLabel::BedCoupling => "bed.coupling"@,
        MpmPassLabel::ExtractionAdvect => "bed.extraction_advect"@,
        MpmPassLabel::BedDynamics => "bed.dynamics"@,
        MpmPassLabel::PrepareRender => "render.prepare"@,
    }
}

pub open spec fn label_display(l: MpmPassLabel) -> Seq<char> {
    match l {
        MpmPassLabel::MetricsClear => "metrics_clear"@,
        MpmPassLabel::BedLookupClear => "bed_lookup_clear"@,
        MpmPassLabel::BedLookupScatter => "bed_lookup_scatter"@,
        MpmPassLabel::P2G => "p2g"@,
        MpmPassLabel::GridUpdate => "grid_update"@,
        MpmPassLabel::BoundaryProject => "boundary_project"@,
        MpmPassLabel::PressureClassify => "classify_cells"@,
        MpmPassLabel::PressureSolve => "pressure_solve"@,
        MpmPassLabel::PressureProject => "project_pressure"@,
        MpmPassLabel::PressureResidual => "pressure_residual"@,
        MpmPassLabel::PackingPrepare => "packing_prepare"@,
        MpmPassLabel::PackingApply => "packing_apply"@,
        MpmPassLabel::ViscosityPrepare => "viscosity_prepare"@,
        MpmPassLabel::ViscosityApply => "viscosity_apply"@,
        MpmPassLabel::G2P => "g2p"@,
        MpmPassLabel::BedCoupling => "bed_coupling"@,
        MpmPassLabel::ExtractionAdvect => "extraction_advect"@,
        MpmPassLabel::BedDynamics => "bed_dynamics"@,
        MpmPassLabel::PrepareRender => "prepare_render"@,
    }
}

pub open spec fn label_category(l: MpmPassLabel) -> Seq<char> {
    match l {
        MpmPassLabel::MetricsClear => "metrics"@,
        MpmPassLabel::BedLookupClear | MpmPassLabel::BedLookupScatter | MpmPassLabel::BedCoupling
        | MpmPassLabel::ExtractionAdvect | MpmPassLabel::BedDynamics => "bed"@,
        MpmPassLabel::P2G | MpmPassLabel::G2P => "transfer"@,
        MpmPassLabel::GridUpdate | MpmPassLabel::BoundaryProject => "grid"@,
        MpmPassLabel::PressureClassify | MpmPassLabel::PressureSolve
        | MpmPassLabel::PressureProject | MpmPassLabel::PressureResidual => "pressure"@,
        MpmPassLabel::PackingPrepare | MpmPassLabel::PackingApply => "packing"@,
        MpmPassLabel::ViscosityPrepare | MpmPassLabel::ViscosityApply => "viscosity"@,
        MpmPassLabel::PrepareRender => "render"@,
    }
}

impl MpmPassLabel {
    /// Stable dotted identifier of the pass, used as a report key.
    pub fn id(self) -> (r: &'static str)
        ensures
            r@ == label_id(self),
    {
        match self {
            MpmPassLabel::MetricsClear => "metrics.clear",
            MpmPassLabel::BedLookupClear => "bed.lookup_clear",
            MpmPassLabel::BedLookupScatter => "bed.lookup_scatter",
            MpmPassLabel::P2G => "transfer.p2g",
            MpmPassLabel::GridUpdate => "grid.update",
            MpmPassLabel::BoundaryProject => "boundary.project",
            MpmPassLabel::PressureClassify => "pressure.classify",
            MpmPassLabel::PressureSolve => "pressure.solve",
            MpmPassLabel::PressureProject => "pressure.project",
            MpmPassLabel::PressureResidual => "pressure.residual",
            MpmPassLabel::PackingPrepare => "packing.prepare",
            MpmPassLabel::PackingApply => "packing.apply",
            MpmPassLabel::ViscosityPrepare => "viscosity.prepare",
            MpmPassLabel::ViscosityApply => "viscosity.apply",
            MpmPassLabel::G2P => "transfer.g2p",
            MpmPassLabel::BedCoupling => "bed.coupling",
            MpmPassLabel::ExtractionAdvect => "bed.extraction_advect",
            MpmPassLabel::BedDynamics => "bed.dynamics",
            MpmPassLabel::PrepareRender => "render.prepare",
        }
    }

    /// Name of the kernel the pass runs, used as the compute pass label.
    pub fn display(self) -> (r: &'static str)
        ensures
            r@ == label_display(self),
    {
        match self {
            MpmPassLabel::MetricsClear => "metrics_clear",
            MpmPassLabel::BedLookupClear => "bed_lookup_clear",
            MpmPassLabel::BedLookupScatter => "bed_lookup_scatter",
            MpmPassLabel::P2G => "p2g",
            MpmPassLabel::GridUpdate => "grid_update",
            MpmPassLabel::BoundaryProject => "boundary_project",
            MpmPassLabel::PressureClassify => "classify_cells",
            MpmPassLabel::PressureSolve => "pressure_solve",
            MpmPassLabel::PressureProject => "project_pressure",
            MpmPassLabel::PressureResidual => "pressure_residual",
            MpmPassLabel::PackingPrepare => "packing_prepare",
            MpmPassLabel::PackingApply => "packing_apply",
            MpmPassLabel::ViscosityPrepare => "viscosity_prepare",
            MpmPassLabel::ViscosityApply => "viscosity_apply",
            MpmPassLabel::G2P => "g2p",
            MpmPassLabel::BedCoupling => "bed_coupling",
            MpmPassLabel::ExtractionAdvect => "extraction_advect",
            MpmPassLabel::BedDynamics => "bed_dynamics",
            MpmPassLabel::PrepareRender => "prepare_render",
        }
    }

    /// Subsystem the pass belongs to.
    pub fn category(self) -> (r: &'static str)
        ensures
            r@ == label_category(self),
    {
        match self {
            MpmPassLabel::MetricsClear => "metrics",
            MpmPassLabel::BedLookupClear | MpmPassLabel::BedLookupScatter
            | MpmPassLabel::BedCoupling | MpmPassLabel::ExtractionAdvect
            | MpmPassLabel::BedDynamics => "bed",
            MpmPassLabel::P2G | MpmPassLabel::G2P => "transfer",
            MpmPassLabel::GridUpdate | MpmPassLabel::BoundaryProject => "grid",
            MpmPassLabel::PressureClassify | MpmPassLabel::PressureSolve
            | MpmPassLabel::PressureProject | MpmPassLabel::PressureResidual => "pressure",
            MpmPassLabel::PackingPrepare | MpmPassLabel::PackingApply => "packing",
            MpmPassLabel::ViscosityPrepare | MpmPassLabel::ViscosityApply => "viscosity",
            MpmPassLabel::PrepareRender => "render",
        }
    }
}

/// Length and two characters of each pass id; together they tell the ids
/// apart.
spec fn label_id_signature(l: MpmPassLabel) -> (nat, char, char) {
    match l {
        MpmPassLabel::MetricsClear => (13, 'i', 'l'),
        MpmPassLabel::BedLookupClear => (16, 'l', 'p'),
        MpmPassLabel::BedLookupScatter => (18, 'l', 'p'),
        MpmPassLabel::P2G => (12, 's', 'p'),
        MpmPassLabel::GridUpdate => (11, '.', 't'),
        MpmPassLabel::BoundaryProject => (16, 'd', 'p'),
        MpmPassLabel::PressureClassify => (17, 's', 'c'),
        MpmPassLabel::PressureSolve => (14, 's', 's'),
        MpmPassLabel::PressureProject => (16, 's', 'p'),
        MpmPassLabel::PressureResidual => (17, 's', 'r'),
        MpmPassLabel::PackingPrepare => (15, 'i', 'r'),
        MpmPassLabel::PackingApply => (13, 'i', 'p'),
        MpmPassLabel::ViscosityPrepare => (17, 'o', '.'),
        MpmPassLabel::ViscosityApply => (15, 'o', '.'),
        MpmPassLabel::G2P => (12, 's', 'g'),
        MpmPassLabel::BedCoupling => (12, 'c', 'i'),
        MpmPassLabel::ExtractionAdvect => (21, 'e', 'c'),
        MpmPassLabel::BedDynamics => (12, 'd', 'i'),
        MpmPassLabel::PrepareRender => (14, 'e', 'e'),
    }
}

proof fn lemma_label_id_signature(l: MpmPassLabel)
    ensures
        label_id(l).len() > 9,
        (label_id(l).len(), label_id(l)[4], label_id(l)[9]) == label_id_signature(l),
{
    match l {
        MpmPassLabel::MetricsClear => reveal_strlit("metrics.clear"),
        MpmPassLabel::BedLookupClear => reveal_strlit("bed.lookup_clear"),
        MpmPassLabel::BedLookupScatter => reveal_strlit("bed.lookup_scatter"),
        MpmPassLabel::P2G => reveal_strlit("transfer.p2g"),
        MpmPassLabel::GridUpdate => reveal_strlit("grid.update"),
        MpmPassLabel::BoundaryProject => reveal_strlit("boundary.project"),
        MpmPassLabel::PressureClassify => reveal_strlit("pressure.classify"),
        MpmPassLabel::PressureSolve => reveal_strlit("pressure.solve"),
        MpmPassLabel::PressureProject => reveal_strlit("pressure.project"),
        MpmPassLabel::PressureResidual => reveal_strlit("pressure.residual"),
        MpmPassLabel::PackingPrepare => reveal_strlit("packing.prepare"),
        MpmPassLabel::PackingApply => reveal_strlit("packing.apply"),
        MpmPassLabel::ViscosityPrepare => reveal_strlit("viscosity.prepare"),
        MpmPassLabel::ViscosityApply => reveal_strlit("viscosity.apply"),
        MpmPassLabel::G2P => reveal_strlit("transfer.g2p"),
        MpmPassLabel::BedCoupling => reveal_strlit("bed.coupling"),
        MpmPassLabel::ExtractionAdvect => reveal_strlit("bed.extraction_advect"),
        MpmPassLabel::BedDynamics => reveal_strlit("bed.dynamics"),
        MpmPassLabel::PrepareRender => reveal_strlit("render.prepare"),
    }
}

/// Distinct passes have distinct ids, so per-pass timings never share a
/// report key.
pub proof fn lemma_pass_label_ids_distinct(a: MpmPassLabel, b: MpmPassLabel)
    ensures
        label_id(a) == label_id(b) ==> a == b,
{
    lemma_label_id_signature(a);
    lemma_label_id_signature(b);
}

/// Every compute pipeline the substep can dispatch.
#[derive(Clone, Copy, Debug, PartialEq, Eq, Structural)]
pub enum PipelineId {
    MetricsClear,
    BedLookupClear,
    BedLookupScatter,
    P2G,
    GridUpdate,
    BoundaryProject,
    PackingPrepare,
    PackingApply,
    ViscosityPrepare,
    ViscosityApply,
    G2P,
    BedCoupling,
    ExtractionAdvect,
    BedDynamics,
    PrepareRender,
    RbgsClassifyCells,
    RbgsRed,
    RbgsBlack,
    RbgsProjectPressure,
    RbgsPressureResidual,
    CgClassifyCells,
    CgInit,
    CgWarmstart,
    CgMatvec,
    CgApplyAlpha,
    CgUpdateDir,
    CgFinishIteration,
    CgActiveFinalizeDispatch,
    CgSparseMatvec,
    CgSparseApplyAlpha,
    CgSparseUpdateDir,
    CgProjectPressure,
    CgPressureResidual,
    StaggeredClassifyCells,
    StaggeredCgInit,
    StaggeredCgMatvec,
    StaggeredProjectPressure,
    StaggeredPressureResidual,
}

/// GPU buffers that a schedule copies between.
#[derive(Clone, Copy, Debug, PartialEq, Eq, Structural)]
pub enum BufferId {
    Metrics,
    PressureDispatchArgs,
}

/// How many workgroups a pass launches.
#[derive(Clone, Copy, Debug, PartialEq, Eq, Structural)]
pub enum MpmDispatch {
    /// A fixed number of workgroups along x.
    Direct(u32),
    /// Workgroup counts read from the pressure dispatch-argument buffer.
    IndirectPressure { offset: u64 },
}

/// One step of a substep schedule.
#[derive(Clone, Copy, Debug, PartialEq, Eq, Structural)]
pub enum MpmScheduleOp {
    Pipeline { label: MpmPassLabel, pipeline: PipelineId, dispatch: MpmDispatch },
    /// A pressure solve that is issued inside the surrounding compute pass.
    PressureSolve { label: MpmPassLabel, ctx: PressureContext },
    CopyBufferToBuffer {
        src: BufferId,
        src_offset: u64,
        dst: BufferId,
        dst_offset: u64,
        size: u64,
    },
}

/// Workgroup counts of the four kinds of dispatch of a substep.
#[derive(Clone, Copy, Debug, PartialEq, Eq, Structural)]
pub struct MpmDispatchSizes {
    pub cell_wg: u32,
    pub particle_wg: u32,
    pub bed_wg: u32,
    pub metrics_wg: u32,
}

// ---------------------------------------------------------------------------
// Dispatch sizes
// ---------------------------------------------------------------------------

/// `ceil(count / threads)`.
pub open spec fn dispatch_size_spec(count: int, threads: int) -> int {
    (count + threads - 1) / threads
}

/// Workgroups needed to cover `count` items with `threads` threads each.
pub fn dispatch_size(count: u32, threads: u32) -> (r: u32)
    requires
        threads > 0,
    ensures
        r == dispatch_size_spec(count as int, threads as int),
{
    let q = count / threads;
    let rem = count % threads;
    proof {
        let c = count as int;
        let t = threads as int;
        assert(c == t * q + rem) by (nonlinear_arith)
            requires
                t > 0,
                q == c / t,
                rem == c % t,
        ;
        assert(dispatch_size_spec(c, t) == q + if rem != 0 { 1int } else { 0int })
            by (nonlinear_arith)
            requires
                t > 0,
                c == t * q + rem,
                0 <= rem < t,
                q >= 0,
        ;
        assert(q * t <= c) by (nonlinear_arith)
            requires
                c == t * q + rem,
                0 <= rem,
        ;
        if rem != 0 {
            assert(q < 0xffff_ffff) by (nonlinear_arith)
                requires
                    t >= 1,
                    q * t <= c,
                    c <= 0xffff_ffff,
                    rem >= 1,
                    c == t * q + rem,
            ;
        }
    }
    if rem != 0 {
        q + 1
    } else {
        q
    }
}

/// The dispatch size is the least number of workgroups that covers `count`.
pub proof fn lemma_dispatch_size_is_least_cover(count: u32, threads: u32)
    requires
        threads > 0,
    ensures
        dispatch_size_spec(count as int, threads as int) * threads >= count,
        count > 0 ==> (dispatch_size_spec(count as int, threads as int) - 1) * threads < count,
        count == 0 ==> dispatch_size_spec(count as int, threads as int) == 0,
{
    let c = count as int;
    let t = threads as int;
    let r = dispatch_size_spec(c, t);
    assert(r * t >= c && (c > 0 ==> (r - 1) * t < c) && (c == 0 ==> r == 0)) by (nonlinear_arith)
        requires
            t > 0,
            c >= 0,
            r == (c + t - 1) / t,
    ;
}

/// Grid cell count of a grid.
pub open spec fn total_cells_spec(grid_dims: [u32; 3]) -> int {
    grid_dims[0] as int * grid_dims[1] as int * grid_dims[2] as int
}

/// Dispatch sizes of a substep with `num_water` water and `num_bed` bed
/// particles on a grid of `grid_dims` cells.
pub open spec fn substep_dispatch_sizes_spec(grid_dims: [u32; 3], num_water: u32, num_bed: u32) -> MpmDispatchSizes {
    MpmDispatchSizes {
        cell_wg: dispatch_size_spec(total_cells_spec(grid_dims), NUM_THREADS as int) as u32,
        particle_wg: dispatch_size_spec(num_water as int + num_bed as int, NUM_THREADS as int) as u32,
        bed_wg: dispatch_size_spec(num_bed as int, NUM_THREADS as int) as u32,
        metrics_wg: dispatch_size_spec(METRICS_SLOT_COUNT as int, 8) as u32,
    }
}

/// Number of cells of a grid of `grid_dims` cells.
pub fn total_cells(grid_dims: [u32; 3]) -> (r: u32)
    requires
        total_cells_spec(grid_dims) <= u32::MAX,
    ensures
        r == total_cells_spec(grid_dims),
{
    let gx = grid_dims[0];
    let gy = grid_dims[1];
    let gz = grid_dims[2];
    if gz == 0 {
        assert(gx as int * gy as int * gz as int == 0) by (nonlinear_arith)
            requires
                gz == 0,
        ;
        0
    } else {
        assert(gx as int * gy as int <= gx as int * gy as int * gz as int) by (nonlinear_arith)
            requires
                gz >= 1,
                gx >= 0,
                gy >= 0,
        ;
        gx * gy * gz
    }
}

pub fn substep_dispatch_sizes(grid_dims: [u32; 3], num_water: u32, num_bed: u32) -> (r: MpmDispatchSizes)
    requires
        total_cells_spec(grid_dims) <= u32::MAX,
        num_water as int + num_bed as int <= u32::MAX,
    ensures
        r == substep_dispatch_sizes_spec(grid_dims, num_water, num_bed),
{
    let total_cells = total_cells(grid_dims);
    MpmDispatchSizes {
        cell_wg: dispatch_size(total_cells, NUM_THREADS),
        particle_wg: dispatch_size(num_water + num_bed, NUM_THREADS),
        bed_wg: dispatch_size(num_bed, NUM_THREADS),
        metrics_wg: dispatch_size(METRICS_SLOT_COUNT, 8),
    }
}

// ---------------------------------------------------------------------------
// Schedules
// ---------------------------------------------------------------------------

pub open spec fn pass(label: MpmPassLabel, pipeline: PipelineId, workgroups: u32) -> MpmScheduleOp {
    MpmScheduleOp::Pipeline { label, pipeline, dispatch: MpmDispatch::Direct(workgroups) }
}

pub open spec fn solve_pass(pipeline: PipelineId, dispatch: MpmDispatch) -> MpmScheduleOp {
    MpmScheduleOp::Pipeline { label: MpmPassLabel::PressureSolve, pipeline, dispatch }
}

/// `block` repeated `n` times.
pub open spec fn repeat<A>(n: nat, block: Seq<A>) -> Seq<A>
    decreases n,
{
    if n == 0 {
        Seq::empty()
    } else {
        repeat((n - 1) as nat, block) + block
    }
}

/// `ops` when `cond` holds, nothing otherwise.
pub open spec fn only_if<A>(cond: bool, ops: Seq<A>) -> Seq<A> {
    if cond {
        ops
    } else {
        Seq::empty()
    }
}

pub open spec fn classify_pipeline(f: PressureFamily) -> PipelineId {
    match f {
        PressureFamily::Rbgs => PipelineId::RbgsClassifyCells,
        PressureFamily::JacobiCg => PipelineId::CgClassifyCells,
        PressureFamily::StagedStaggered => PipelineId::StaggeredClassifyCells,
    }
}

pub open spec fn project_pipeline(f: PressureFamily) -> PipelineId {
    match f {
        PressureFamily::Rbgs => PipelineId::RbgsProjectPressure,
        PressureFamily::JacobiCg => PipelineId::CgProjectPressure,
        PressureFamily::StagedStaggered => PipelineId::StaggeredProjectPressure,
    }
}

pub open spec fn residual_pipeline(f: PressureFamily) -> PipelineId {
    match f {
        PressureFamily::Rbgs => PipelineId::RbgsPressureResidual,
        PressureFamily::JacobiCg => PipelineId::CgPressureResidual,
        PressureFamily::StagedStaggered => PipelineId::StaggeredPressureResidual,
    }
}

/// The operations a pressure solve adds to a substep schedule. The sparse
/// CG solve copies its active workgroup counts into the indirect dispatch
/// arguments and then runs its iterations indirectly; the staged staggered
/// CG solve is expanded pass by pass; the remaining solves are issued as one
/// pressure-solve step.
pub open spec fn pressure_solve_ops_spec(ctx: PressureContext) -> Seq<MpmScheduleOp> {
    let cell = ctx.cell_wg;
    let indirect = MpmDispatch::IndirectPressure { offset: 0 };
    match (ctx.operator, ctx.kind) {
        (_, PressureSolverKind::SparseCg) => seq![
            solve_pass(PipelineId::CgInit, MpmDispatch::Direct(cell)),
            solve_pass(PipelineId::CgActiveFinalizeDispatch, MpmDispatch::Direct(1)),
            solve_pass(PipelineId::CgWarmstart, MpmDispatch::Direct(cell)),
            MpmScheduleOp::CopyBufferToBuffer {
                src: BufferId::Metrics,
                src_offset: (METRIC_PRESSURE_ACTIVE_WORKGROUPS_X_IDX * 4) as u64,
                dst: BufferId::PressureDispatchArgs,
                dst_offset: 0,
                size: 12,
            },
        ] + repeat(
            ctx.cg_iterations as nat,
            seq![
                solve_pass(PipelineId::CgSparseMatvec, indirect),
                solve_pass(PipelineId::CgSparseApplyAlpha, indirect),
                solve_pass(PipelineId::CgSparseUpdateDir, indirect),
                solve_pass(PipelineId::CgFinishIteration, MpmDispatch::Direct(1)),
            ],
        ),
        (PressureOperatorKind::Staggered, PressureSolverKind::JacobiCg) => seq![
            solve_pass(PipelineId::StaggeredCgInit, MpmDispatch::Direct(cell)),
            solve_pass(PipelineId::CgWarmstart, MpmDispatch::Direct(cell)),
        ] + repeat(
            ctx.cg_iterations as nat,
            seq![
                solve_pass(PipelineId::StaggeredCgMatvec, MpmDispatch::Direct(cell)),
                solve_pass(PipelineId::CgApplyAlpha, MpmDispatch::Direct(cell)),
                solve_pass(PipelineId::CgUpdateDir, MpmDispatch::Direct(cell)),
                solve_pass(PipelineId::CgFinishIteration, MpmDispatch::Direct(1)),
            ],
        ),
        _ => seq![MpmScheduleOp::PressureSolve { label: MpmPassLabel::PressureSolve, ctx }],
    }
}

pub open spec fn schedule_head(d: MpmDispatchSizes, family: PressureFamily) -> Seq<MpmScheduleOp> {
    let cell = d.cell_wg;
    only_if(d.metrics_wg > 0, seq![pass(MpmPassLabel::MetricsClear, PipelineId::MetricsClear, d.metrics_wg)])
        + seq![pass(MpmPassLabel::BedLookupClear, PipelineId::BedLookupClear, cell)]
        + only_if(d.bed_wg > 0, seq![pass(MpmPassLabel::BedLookupScatter, PipelineId::BedLookupScatter, d.bed_wg)])
        + only_if(d.particle_wg > 0, seq![pass(MpmPassLabel::P2G, PipelineId::P2G, d.particle_wg)])
        + seq![
            pass(MpmPassLabel::GridUpdate, PipelineId::GridUpdate, cell),
            pass(MpmPassLabel::BoundaryProject, PipelineId::BoundaryProject, cell),
            pass(MpmPassLabel::PressureClassify, classify_pipeline(family), cell),
        ]
}

pub open spec fn schedule_middle(cell: u32, family: PressureFamily) -> Seq<MpmScheduleOp> {
    seq![
        pass(MpmPassLabel::PressureProject, project_pipeline(family), cell),
        pass(MpmPassLabel::BoundaryProject, PipelineId::BoundaryProject, cell),
        pass(MpmPassLabel::PressureResidual, residual_pipeline(family), cell),
        pass(MpmPassLabel::PackingPrepare, PipelineId::PackingPrepare, cell),
        pass(MpmPassLabel::PackingApply, PipelineId::PackingApply, cell),
        pass(MpmPassLabel::BoundaryProject, PipelineId::BoundaryProject, cell),
        pass(MpmPassLabel::ViscosityPrepare, PipelineId::ViscosityPrepare, cell),
        pass(MpmPassLabel::ViscosityApply, PipelineId::ViscosityApply, cell),
        pass(MpmPassLabel::BoundaryProject, PipelineId::BoundaryProject, cell),
    ]
}

pub open spec fn schedule_tail(d: MpmDispatchSizes) -> Seq<MpmScheduleOp> {
    only_if(d.particle_wg > 0, seq![
        pass(MpmPassLabel::G2P, PipelineId::G2P, d.particle_wg),
        pass(MpmPassLabel::BedCoupling, PipelineId::BedCoupling, d.particle_wg),
    ])
        + only_if(d.bed_wg > 0, seq![
            pass(MpmPassLabel::ExtractionAdvect, PipelineId::ExtractionAdvect, d.bed_wg),
            pass(MpmPassLabel::BedDynamics, PipelineId::BedDynamics, d.bed_wg),
        ])
        + only_if(d.particle_wg > 0, seq![pass(MpmPassLabel::PrepareRender, PipelineId::PrepareRender, d.particle_wg)])
}

/// The full schedule of one substep: particle-to-grid transfer, grid update,
/// pressure projection, packing and viscosity corrections (each followed by a
/// boundary projection), grid-to-particle transfer, bed coupling and
/// dynamics, and render preparation. Passes whose dispatch would be empty are
/// left out.
pub open spec fn substep_schedule_spec(d: MpmDispatchSizes, ctx: PressureContext) -> Seq<MpmScheduleOp> {
    let family = pressure_family_spec(ctx);
    schedule_head(d, family) + pressure_solve_ops_spec(ctx) + schedule_middle(d.cell_wg, family)
        + schedule_tail(d)
}

fn push_pass(ops: &mut Vec<MpmScheduleOp>, label: MpmPassLabel, pipeline: PipelineId, workgroups: u32)
    ensures
        final(ops)@ == old(ops)@.push(pass(label, pipeline, workgroups)),
{
    ops.push(MpmScheduleOp::Pipeline { label, pipeline, dispatch: MpmDispatch::Direct(workgroups) });
}

fn push_solve(ops: &mut Vec<MpmScheduleOp>, pipeline: PipelineId, dispatch: MpmDispatch)
    ensures
        final(ops)@ == old(ops)@.push(solve_pass(pipeline, dispatch)),
{
    ops.push(MpmScheduleOp::Pipeline { label: MpmPassLabel::PressureSolve, pipeline, dispatch });
}

proof fn lemma_repeat_step<A>(n: nat, block: Seq<A>)
    ensures
        repeat(n + 1, block) == repeat(n, block) + block,
{
}

/// Appends `iterations` CG iterations of four passes each.
fn push_cg_iterations(
    ops: &mut Vec<MpmScheduleOp>,
    iterations: u32,
    matvec: PipelineId,
    apply_alpha: PipelineId,
    update_dir: PipelineId,
    dispatch: MpmDispatch,
)
    ensures
        final(ops)@ == old(ops)@ + repeat(
            iterations as nat,
            seq![
                solve_pass(matvec, dispatch),
                solve_pass(apply_alpha, dispatch),
                solve_pass(update_dir, dispatch),
                solve_pass(PipelineId::CgFinishIteration, MpmDispatch::Direct(1)),
            ],
        ),
{
    let ghost start = ops@;
    let ghost block = seq![
        solve_pass(matvec, dispatch),
        solve_pass(apply_alpha, dispatch),
        solve_pass(update_dir, dispatch),
        solve_pass(PipelineId::CgFinishIteration, MpmDispatch::Direct(1)),
    ];
    let mut k: u32 = 0;
    assert(start + repeat(0, block) =~= start);
    while k < iterations
        invariant
            k <= iterations,
            ops@ == start + repeat(k as nat, block),
            block == seq![
                solve_pass(matvec, dispatch),
                solve_pass(apply_alpha, dispatch),
                solve_pass(update_dir, dispatch),
                solve_pass(PipelineId::CgFinishIteration, MpmDispatch::Direct(1)),
            ],
        decreases iterations - k,
    {
        push_solve(ops, matvec, dispatch);
        push_solve(ops, apply_alpha, dispatch);
        push_solve(ops, update_dir, dispatch);
        push_solve(ops, PipelineId::CgFinishIteration, MpmDispatch::Direct(1));
        proof {
            lemma_repeat_step(k as nat, block);
            assert(ops@ =~= start + repeat((k + 1) as nat, block));
        }
        k = k + 1;
    }
}

/// Appends the operations of one pressure solve.
pub fn push_pressure_solve_ops(ops: &mut Vec<MpmScheduleOp>, ctx: PressureContext)
    ensures
        final(ops)@ == old(ops)@ + pressure_solve_ops_spec(ctx),
{
    let ghost start = ops@;
    let cell = ctx.cell_wg;
    match (ctx.operator, ctx.kind) {
        (_, PressureSolverKind::SparseCg) => {
            push_solve(ops, PipelineId::CgInit, MpmDispatch::Direct(cell));
            push_solve(ops, PipelineId::CgActiveFinalizeDispatch, MpmDispatch::Direct(1));
            push_solve(ops, PipelineId::CgWarmstart, MpmDispatch::Direct(cell));
            ops.push(
                MpmScheduleOp::CopyBufferToBuffer {
                    src: BufferId::Metrics,
                    src_offset: METRIC_PRESSURE_ACTIVE_WORKGROUPS_X_IDX * 4,
                    dst: BufferId::PressureDispatchArgs,
                    dst_offset: 0,
                    size: 12,
                },
            );
            let ghost mid = ops@;
            push_cg_iterations(
                ops,
                ctx.cg_iterations,
                PipelineId::CgSparseMatvec,
                PipelineId::CgSparseApplyAlpha,
                PipelineId::CgSparseUpdateDir,
                MpmDispatch::IndirectPressure { offset: 0 },
            );
            assert(ops@ =~= start + pressure_solve_ops_spec(ctx));
        },
        (PressureOperatorKind::Staggered, PressureSolverKind::JacobiCg) => {
            push_solve(ops, PipelineId::StaggeredCgInit, MpmDispatch::Direct(cell));
            push_solve(ops, PipelineId::CgWarmstart, MpmDispatch::Direct(cell));
            push_cg_iterations(
                ops,
                ctx.cg_iterations,
                PipelineId::StaggeredCgMatvec,
                PipelineId::CgApplyAlpha,
                PipelineId::CgUpdateDir,
                MpmDispatch::Direct(cell),
            );
            assert(ops@ =~= start + pressure_solve_ops_spec(ctx));
        },
        _ => {
            ops.push(MpmScheduleOp::PressureSolve { label: MpmPassLabel::PressureSolve, ctx });
            assert(ops@ =~= start + pressure_solve_ops_spec(ctx));
        },
    }
}

fn classify_pipeline_for(f: PressureFamily) -> (r: PipelineId)
    ensures
        r == classify_pipeline(f),
{
    match f {
        PressureFamily::Rbgs => PipelineId::RbgsClassifyCells,
        PressureFamily::JacobiCg => PipelineId::CgClassifyCells,
        PressureFamily::StagedStaggered => PipelineId::StaggeredClassifyCells,
    }
}

fn project_pipeline_for(f: PressureFamily) -> (r: PipelineId)
    ensures
        r == project_pipeline(f),
{
    match f {
        PressureFamily::Rbgs => PipelineId::RbgsProjectPressure,
        PressureFamily::JacobiCg => PipelineId::CgProjectPressure,
        PressureFamily::StagedStaggered => PipelineId::StaggeredProjectPressure,
    }
}

fn residual_pipeline_for(f: PressureFamily) -> (r: PipelineId)
    ensures
        r == residual_pipeline(f),
{
    match f {
        PressureFamily::Rbgs => PipelineId::RbgsPressureResidual,
        PressureFamily::JacobiCg => PipelineId::CgPressureResidual,
        PressureFamily::StagedStaggered => PipelineId::StaggeredPressureResidual,
    }
}

fn push_schedule_head(ops: &mut Vec<MpmScheduleOp>, dispatch: MpmDispatchSizes, family: PressureFamily)
    ensures
        final(ops)@ == old(ops)@ + schedule_head(dispatch, family),
{
    let ghost start = ops@;
    let cell = dispatch.cell_wg;
    if dispatch.metrics_wg > 0 {
        push_pass(ops, MpmPassLabel::MetricsClear, PipelineId::MetricsClear, dispatch.metrics_wg);
    }
    push_pass(ops, MpmPassLabel::BedLookupClear, PipelineId::BedLookupClear, cell);
    if dispatch.bed_wg > 0 {
        push_pass(ops, MpmPassLabel::BedLookupScatter, PipelineId::BedLookupScatter, dispatch.bed_wg);
    }
    if dispatch.particle_wg > 0 {
        push_pass(ops, MpmPassLabel::P2G, PipelineId::P2G, dispatch.particle_wg);
    }
    push_pass(ops, MpmPassLabel::GridUpdate, PipelineId::GridUpdate, cell);
    push_pass(ops, MpmPassLabel::BoundaryProject, PipelineId::BoundaryProject, cell);
    push_pass(ops, MpmPassLabel::PressureClassify, classify_pipeline_for(family), cell);
    assert(ops@ =~= start + schedule_head(dispatch, family));
}

fn push_schedule_middle(ops: &mut Vec<MpmScheduleOp>, cell: u32, family: PressureFamily)
    ensures
        final(ops)@ == old(ops)@ + schedule_middle(cell, family),
{
    let ghost start = ops@;
    push_pass(ops, MpmPassLabel::PressureProject, project_pipeline_for(family), cell);
    push_pass(ops, MpmPassLabel::BoundaryProject, PipelineId::BoundaryProject, cell);
    push_pass(ops, MpmPassLabel::PressureResidual, residual_pipeline_for(family), cell);
    push_pass(ops, MpmPassLabel::PackingPrepare, PipelineId::PackingPrepare, cell);
    push_pass(ops, MpmPassLabel::PackingApply, PipelineId::PackingApply, cell);
    push_pass(ops, MpmPassLabel::BoundaryProject, PipelineId::BoundaryProject, cell);
    push_pass(ops, MpmPassLabel::ViscosityPrepare, PipelineId::ViscosityPrepare, cell);
    push_pass(ops, MpmPassLabel::ViscosityApply, PipelineId::ViscosityApply, cell);
    push_pass(ops, MpmPassLabel::BoundaryProject, PipelineId::BoundaryProject, cell);
    assert(ops@ =~= start + schedule_middle(cell, family));
}

fn push_schedule_tail(ops: &mut Vec<MpmScheduleOp>, dispatch: MpmDispatchSizes)
    ensures
        final(ops)@ == old(ops)@ + schedule_tail(dispatch),
{
    let ghost start = ops@;
    if dispatch.particle_wg > 0 {
        push_pass(ops, MpmPassLabel::G2P, PipelineId::G2P, dispatch.particle_wg);
        push_pass(ops, MpmPassLabel::BedCoupling, PipelineId::BedCoupling, dispatch.particle_wg);
    }
    if dispatch.bed_wg > 0 {
        push_pass(ops, MpmPassLabel::ExtractionAdvect, PipelineId::ExtractionAdvect, dispatch.bed_wg);
        push_pass(ops, MpmPassLabel::BedDynamics, PipelineId::BedDynamics, dispatch.bed_wg);
    }
    if dispatch.particle_wg > 0 {
        push_pass(ops, MpmPassLabel::PrepareRender, PipelineId::PrepareRender, dispatch.particle_wg);
    }
    assert(ops@ =~= start + schedule_tail(dispatch));
}

/// The schedule of one substep.
pub fn encode_mpm_substep_schedule(dispatch: MpmDispatchSizes, pressure_ctx: PressureContext) -> (r: Vec<MpmScheduleOp>)
    ensures
        r@ == substep_schedule_spec(dispatch, pressure_ctx),
{
    let family = pressure_family(pressure_ctx);
    let mut ops: Vec<MpmScheduleOp> = Vec::new();
    push_schedule_head(&mut ops, dispatch, family);
    push_pressure_solve_ops(&mut ops, pressure_ctx);
    push_schedule_middle(&mut ops, dispatch.cell_wg, family);
    push_schedule_tail(&mut ops, dispatch);
    assert(ops@ =~= substep_schedule_spec(dispatch, pressure_ctx));
    ops
}

// ---------------------------------------------------------------------------
// Dispatches of a pressure solve inside one compute pass
// ---------------------------------------------------------------------------

/// One kernel launch: the pipeline and its workgroup count along x.
#[derive(Clone, Copy, Debug, PartialEq, Eq, Structural)]
pub struct SolveDispatch {
    pub pipeline: PipelineId,
    pub workgroups: u32,
}

pub open spec fn launch(pipeline: PipelineId, workgroups: u32) -> SolveDispatch {
    SolveDispatch { pipeline, workgroups }
}

/// One CG iteration: matrix-vector product, step, direction update, each
/// over the cells, and a single-workgroup finish.
pub open spec fn cg_iteration(
    matvec: PipelineId,
    apply_alpha: PipelineId,
    update_dir: PipelineId,
    cell: u32,
) -> Seq<SolveDispatch> {
    seq![
        launch(matvec, cell),
        launch(apply_alpha, cell),
        launch(update_dir, cell),
        launch(PipelineId::CgFinishIteration, 1),
    ]
}

/// The kernels a pressure solve launches when it is encoded into one compute
/// pass: red/black sweeps for Gauss-Seidel; initialisation, warm start and
/// the CG iterations otherwise (the sparse solve also finalises its active
/// dispatch, and the staggered operator uses its own init and matvec).
pub open spec fn solve_dispatches_spec(ctx: PressureContext) -> Seq<SolveDispatch> {
    let cell = ctx.cell_wg;
    match (ctx.operator, ctx.kind) {
        (_, PressureSolverKind::Rbgs) => repeat(
            ctx.rbgs_pairs as nat,
            seq![launch(PipelineId::RbgsRed, cell), launch(PipelineId::RbgsBlack, cell)],
        ),
        (PressureOperatorKind::Collocated, PressureSolverKind::JacobiCg) => seq![
            launch(PipelineId::CgInit, cell),
            launch(PipelineId::CgWarmstart, cell),
        ] + repeat(
            ctx.cg_iterations as nat,
            cg_iteration(PipelineId::CgMatvec, PipelineId::CgApplyAlpha, PipelineId::CgUpdateDir, cell),
        ),
        (_, PressureSolverKind::SparseCg) => seq![
            launch(PipelineId::CgInit, cell),
            launch(PipelineId::CgActiveFinalizeDispatch, 1),
            launch(PipelineId::CgWarmstart, cell),
        ] + repeat(
            ctx.cg_iterations as nat,
            cg_iteration(
                PipelineId::CgSparseMatvec,
                PipelineId::CgSparseApplyAlpha,
                PipelineId::CgSparseUpdateDir,
                cell,
            ),
        ),
        (PressureOperatorKind::Staggered, PressureSolverKind::JacobiCg) => seq![
            launch(PipelineId::StaggeredCgInit, cell),
            launch(PipelineId::CgWarmstart, cell),
        ] + repeat(
            ctx.cg_iterations as nat,
            cg_iteration(
                PipelineId::StaggeredCgMatvec,
                PipelineId::CgApplyAlpha,
                PipelineId::CgUpdateDir,
                cell,
            ),
        ),
    }
}

/// Appends `block` `n` times.
fn push_repeated(out: &mut Vec<SolveDispatch>, n: u32, block: &Vec<SolveDispatch>)
    ensures
        final(out)@ == old(out)@ + repeat(n as nat, block@),
{
    let ghost start = out@;
    let mut k: u32 = 0;
    assert(start + repeat(0, block@) =~= start);
    while k < n
        invariant
            k <= n,
            out@ == start + repeat(k as nat, block@),
        decreases n - k,
    {
        let ghost before = out@;
        let mut j: usize = 0;
        while j < block.len()
            invariant
                j <= block.len(),
                out@ == before + block@.subrange(0, j as int),
            decreases block.len() - j,
        {
            out.push(block[j]);
            assert(out@ =~= before + block@.subrange(0, j + 1));
            j = j + 1;
        }
        proof {
            lemma_repeat_step(k as nat, block@);
            assert(block@.subrange(0, block.len() as int) =~= block@);
            assert(out@ =~= start + repeat((k + 1) as nat, block@));
        }
        k = k + 1;
    }
}

fn cg_iteration_block(matvec: PipelineId, apply_alpha: PipelineId, update_dir: PipelineId, cell: u32) -> (r: Vec<SolveDispatch>)
    ensures
        r@ == cg_iteration(matvec, apply_alpha, update_dir, cell),
{
    let mut v: Vec<SolveDispatch> = Vec::new();
    v.push(SolveDispatch { pipeline: matvec, workgroups: cell });
    v.push(SolveDispatch { pipeline: apply_alpha, workgroups: cell });
    v.push(SolveDispatch { pipeline: update_dir, workgroups: cell });
    v.push(SolveDispatch { pipeline: PipelineId::CgFinishIteration, workgroups: 1 });
    assert(v@ =~= cg_iteration(matvec, apply_alpha, update_dir, cell));
    v
}

/// The kernels one pressure solve launches within a single compute pass.
pub fn pressure_solve_dispatches(ctx: PressureContext) -> (r: Vec<SolveDispatch>)
    ensures
        r@ == solve_dispatches_spec(ctx),
{
    let cell = ctx.cell_wg;
    let mut out: Vec<SolveDispatch> = Vec::new();
    match (ctx.operator, ctx.kind) {
        (_, PressureSolverKind::Rbgs) => {
            let mut sweep: Vec<SolveDispatch> = Vec::new();
            sweep.push(SolveDispatch { pipeline: PipelineId::RbgsRed, workgroups: cell });
            sweep.push(SolveDispatch { pipeline: PipelineId::RbgsBlack, workgroups: cell });
            push_repeated(&mut out, ctx.rbgs_pairs, &sweep);
            assert(sweep@ =~= seq![launch(PipelineId::RbgsRed, cell), launch(PipelineId::RbgsBlack, cell)]);
            assert(out@ =~= solve_dispatches_spec(ctx));
        },
        (PressureOperatorKind::Collocated, PressureSolverKind::JacobiCg) => {
            out.push(SolveDispatch { pipeline: PipelineId::CgInit, workgroups: cell });
            out.push(SolveDispatch { pipeline: PipelineId::CgWarmstart, workgroups: cell });
            let block = cg_iteration_block(
                PipelineId::CgMatvec,
                PipelineId::CgApplyAlpha,
                PipelineId::CgUpdateDir,
                cell,
            );
            push_repeated(&mut out, ctx.cg_iterations, &block);
            assert(out@ =~= solve_dispatches_spec(ctx));
        },
        (_, PressureSolverKind::SparseCg) => {
            out.push(SolveDispatch { pipeline: PipelineId::CgInit, workgroups: cell });
            out.push(SolveDispatch { pipeline: PipelineId::CgActiveFinalizeDispatch, workgroups: 1 });
            out.push(SolveDispatch { pipeline: PipelineId::CgWarmstart, workgroups: cell });
            let block = cg_iteration_block(
                PipelineId::CgSparseMatvec,
                PipelineId::CgSparseApplyAlpha,
                PipelineId::CgSparseUpdateDir,
                cell,
            );
            push_repeated(&mut out, ctx.cg_iterations, &block);
            assert(out@ =~= solve_dispatches_spec(ctx));
        },
        (PressureOperatorKind::Staggered, PressureSolverKind::JacobiCg) => {
            out.push(SolveDispatch { pipeline: PipelineId::StaggeredCgInit, workgroups: cell });
            out.push(SolveDispatch { pipeline: PipelineId::CgWarmstart, workgroups: cell });
            let block = cg_iteration_block(
                PipelineId::StaggeredCgMatvec,
                PipelineId::CgApplyAlpha,
                PipelineId::CgUpdateDir,
                cell,
            );
            push_repeated(&mut out, ctx.cg_iterations, &block);
            assert(out@ =~= solve_dispatches_spec(ctx));
        },
    }
    out
}

/// One command recorded into a compute pass: bind a pipeline and dispatch.
#[derive(Clone, Copy, Debug, PartialEq, Eq, Structural)]
pub struct ComputeCommand {
    pub pipeline: PipelineId,
    pub dispatch: MpmDispatch,
}

pub open spec fn direct_command(d: SolveDispatch) -> ComputeCommand {
    ComputeCommand { pipeline: d.pipeline, dispatch: MpmDispatch::Direct(d.workgroups) }
}

/// What one schedule operation records into a compute pass: its own
/// dispatch, the launches of a pressure solve, or nothing for a buffer
/// copy (copies are recorded between passes).
pub open spec fn op_commands(op: MpmScheduleOp) -> Seq<ComputeCommand> {
    match op {
        MpmScheduleOp::Pipeline { pipeline, dispatch, .. } => seq![
            ComputeCommand { pipeline, dispatch },
        ],
        MpmScheduleOp::PressureSolve { ctx, .. } => solve_dispatches_spec(ctx).map_values(
            |d: SolveDispatch| direct_command(d),
        ),
        MpmScheduleOp::CopyBufferToBuffer { .. } => Seq::empty(),
    }
}

/// The commands a compute pass over `ops` records, in order.
pub open spec fn compute_commands_spec(ops: Seq<MpmScheduleOp>) -> Seq<ComputeCommand>
    decreases ops.len(),
{
    if ops.len() == 0 {
        Seq::empty()
    } else {
        compute_commands_spec(ops.drop_last()) + op_commands(ops.last())
    }
}

/// The commands a compute pass over `ops` records.
pub fn compute_pass_commands(ops: &[MpmScheduleOp]) -> (r: Vec<ComputeCommand>)
    ensures
        r@ == compute_commands_spec(ops@),
{
    let mut out: Vec<ComputeCommand> = Vec::new();
    let mut i: usize = 0;
    assert(ops@.subrange(0, 0) =~= Seq::<MpmScheduleOp>::empty());
    while i < ops.len()
        invariant
            i <= ops.len(),
            out@ == compute_commands_spec(ops@.subrange(0, i as int)),
        decreases ops.len() - i,
    {
        let ghost next = ops@.subrange(0, i + 1);
        assert(next.drop_last() =~= ops@.subrange(0, i as int));
        let ghost before = out@;
        match ops[i] {
            MpmScheduleOp::Pipeline { pipeline, dispatch, .. } => {
                out.push(ComputeCommand { pipeline, dispatch });
            },
            MpmScheduleOp::PressureSolve { ctx, .. } => {
                let ds = pressure_solve_dispatches(ctx);
                let mut j: usize = 0;
                while j < ds.len()
                    invariant
                        j <= ds.len(),
                        out@ == before + ds@.subrange(0, j as int).map_values(
                            |d: SolveDispatch| direct_command(d),
                        ),
                    decreases ds.len() - j,
                {
                    let d = ds[j];
                    out.push(ComputeCommand { pipeline: d.pipeline, dispatch: MpmDispatch::Direct(d.workgroups) });
                    assert(ds@.subrange(0, j + 1).map_values(|d: SolveDispatch| direct_command(d))
                        =~= ds@.subrange(0, j as int).map_values(|d: SolveDispatch| direct_command(d)).push(
                        direct_command(ds@[j as int]),
                    ));
                    j = j + 1;
                }
                assert(ds@.subrange(0, ds.len() as int) =~= ds@);
            },
            MpmScheduleOp::CopyBufferToBuffer { .. } => {},
        }
        assert(out@ =~= compute_commands_spec(next));
        i = i + 1;
    }
    assert(ops@.subrange(0, ops.len() as int) =~= ops@);
    out
}

/// The pipelines that the pipeline operations of `ops` run, in order.
pub open spec fn op_pipelines(ops: Seq<MpmScheduleOp>) -> Seq<PipelineId>
    decreases ops.len(),
{
    if ops.len() == 0 {
        Seq::empty()
    } else {
        let init = op_pipelines(ops.drop_last());
        match ops.last() {
            MpmScheduleOp::Pipeline { pipeline, .. } => init.push(pipeline),
            _ => init,
        }
    }
}

pub open spec fn launch_pipelines(ds: Seq<SolveDispatch>) -> Seq<PipelineId> {
    ds.map_values(|d: SolveDispatch| d.pipeline)
}

proof fn lemma_op_pipelines_append(a: Seq<MpmScheduleOp>, b: Seq<MpmScheduleOp>)
    ensures
        op_pipelines(a + b) == op_pipelines(a) + op_pipelines(b),
    decreases b.len(),
{
    if b.len() == 0 {
        assert(a + b =~= a);
        assert(op_pipelines(b) =~= Seq::<PipelineId>::empty());
        assert(op_pipelines(a) + op_pipelines(b) =~= op_pipelines(a));
    } else {
        assert((a + b).drop_last() =~= a + b.drop_last());
        assert((a + b).last() == b.last());
        lemma_op_pipelines_append(a, b.drop_last());
        match b.last() {
            MpmScheduleOp::Pipeline { pipeline, .. } => {
                assert(op_pipelines(a) + op_pipelines(b) =~= (op_pipelines(a) + op_pipelines(
                    b.drop_last(),
                )).push(pipeline));
            },
            _ => {},
        }
    }
}

proof fn lemma_op_pipelines_repeat(n: nat, block: Seq<MpmScheduleOp>)
    ensures
        op_pipelines(repeat(n, block)) == repeat(n, op_pipelines(block)),
    decreases n,
{
    if n == 0 {
        assert(op_pipelines(repeat(0, block)) =~= Seq::<PipelineId>::empty());
    } else {
        lemma_op_pipelines_repeat((n - 1) as nat, block);
        lemma_op_pipelines_append(repeat((n - 1) as nat, block), block);
    }
}

proof fn lemma_launch_pipelines_repeat(n: nat, block: Seq<SolveDispatch>)
    ensures
        launch_pipelines(repeat(n, block)) == repeat(n, launch_pipelines(block)),
    decreases n,
{
    if n == 0 {
        assert(launch_pipelines(repeat(0, block)) =~= Seq::<PipelineId>::empty());
    } else {
        lemma_launch_pipelines_repeat((n - 1) as nat, block);
        assert(launch_pipelines(repeat((n - 1) as nat, block) + block) =~= launch_pipelines(
            repeat((n - 1) as nat, block),
        ) + launch_pipelines(block));
    }
}

proof fn lemma_repeat_len<A>(n: nat, block: Seq<A>)
    ensures
        repeat(n, block).len() == n * block.len(),
    decreases n,
{
    if n > 0 {
        lemma_repeat_len((n - 1) as nat, block);
        assert(repeat(n, block) == repeat((n - 1) as nat, block) + block);
        assert(n * block.len() == (n - 1) * block.len() + block.len()) by (nonlinear_arith);
    } else {
        assert(n * block.len() == 0) by (nonlinear_arith)
            requires
                n == 0,
        ;
    }
}

/// The solves that the substep schedule expands step by step (sparse CG,
/// and CG with the staggered operator) run the same kernels, in the same
/// order, as when the solve is encoded inside one compute pass; the
/// schedule only adds the copy of the active workgroup counts.
pub proof fn lemma_scheduled_solve_runs_same_kernels(ctx: PressureContext)
    requires
        ctx.kind == PressureSolverKind::SparseCg || (ctx.kind == PressureSolverKind::JacobiCg
            && ctx.operator == PressureOperatorKind::Staggered),
    ensures
        op_pipelines(pressure_solve_ops_spec(ctx)) == launch_pipelines(solve_dispatches_spec(ctx)),
{
    let cell = ctx.cell_wg;
    let n = ctx.cg_iterations as nat;
    let indirect = MpmDispatch::IndirectPressure { offset: 0 };
    reveal_with_fuel(op_pipelines, 5);
    if ctx.kind == PressureSolverKind::SparseCg {
        let head = seq![
            solve_pass(PipelineId::CgInit, MpmDispatch::Direct(cell)),
            solve_pass(PipelineId::CgActiveFinalizeDispatch, MpmDispatch::Direct(1)),
            solve_pass(PipelineId::CgWarmstart, MpmDispatch::Direct(cell)),
            MpmScheduleOp::CopyBufferToBuffer {
                src: BufferId::Metrics,
                src_offset: (METRIC_PRESSURE_ACTIVE_WORKGROUPS_X_IDX * 4) as u64,
                dst: BufferId::PressureDispatchArgs,
                dst_offset: 0,
                size: 12,
            },
        ];
        let block = seq![
            solve_pass(PipelineId::CgSparseMatvec, indirect),
            solve_pass(PipelineId::CgSparseApplyAlpha, indirect),
            solve_pass(PipelineId::CgSparseUpdateDir, indirect),
            solve_pass(PipelineId::CgFinishIteration, MpmDispatch::Direct(1)),
        ];
        let dhead = seq![
            launch(PipelineId::CgInit, cell),
            launch(PipelineId::CgActiveFinalizeDispatch, 1),
            launch(PipelineId::CgWarmstart, cell),
        ];
        let dblock = cg_iteration(
            PipelineId::CgSparseMatvec,
            PipelineId::CgSparseApplyAlpha,
            PipelineId::CgSparseUpdateDir,
            cell,
        );
        lemma_op_pipelines_append(head, repeat(n, block));
        lemma_op_pipelines_repeat(n, block);
        lemma_launch_pipelines_repeat(n, dblock);
        assert(launch_pipelines(dhead + repeat(n, dblock)) =~= launch_pipelines(dhead)
            + launch_pipelines(repeat(n, dblock)));
        assert(op_pipelines(head) =~= launch_pipelines(dhead));
        assert(op_pipelines(block) =~= launch_pipelines(dblock));
    } else {
        let head = seq![
            solve_pass(PipelineId::StaggeredCgInit, MpmDispatch::Direct(cell)),
            solve_pass(PipelineId::CgWarmstart, MpmDispatch::Direct(cell)),
        ];
        let block = seq![
            solve_pass(PipelineId::StaggeredCgMatvec, MpmDispatch::Direct(cell)),
            solve_pass(PipelineId::CgApplyAlpha, MpmDispatch::Direct(cell)),
            solve_pass(PipelineId::CgUpdateDir, MpmDispatch::Direct(cell)),
            solve_pass(PipelineId::CgFinishIteration, MpmDispatch::Direct(1)),
        ];
        let dhead = seq![launch(PipelineId::StaggeredCgInit, cell), launch(PipelineId::CgWarmstart, cell)];
        let dblock = cg_iteration(
            PipelineId::StaggeredCgMatvec,
            PipelineId::CgApplyAlpha,
            PipelineId::CgUpdateDir,
            cell,
        );
        lemma_op_pipelines_append(head, repeat(n, block));
        lemma_op_pipelines_repeat(n, block);
        lemma_launch_pipelines_repeat(n, dblock);
        assert(launch_pipelines(dhead + repeat(n, dblock)) =~= launch_pipelines(dhead)
            + launch_pipelines(repeat(n, dblock)));
        assert(op_pipelines(head) =~= launch_pipelines(dhead));
        assert(op_pipelines(block) =~= launch_pipelines(dblock));
    }
}

/// The timed scopes the profiler budgets for a sparse CG solve are its
/// launches plus the classify, project and residual passes around it.
pub proof fn lemma_sparse_scopes_count_launches(ctx: PressureContext)
    requires
        ctx.kind == PressureSolverKind::SparseCg,
    ensures
        crate::pressure::timestamp_scopes_spec(ctx) == solve_dispatches_spec(ctx).len() + 3,
{
    let cell = ctx.cell_wg;
    assert(cg_iteration(
        PipelineId::CgSparseMatvec,
        PipelineId::CgSparseApplyAlpha,
        PipelineId::CgSparseUpdateDir,
        cell,
    ).len() == 4);
    lemma_repeat_len(
        ctx.cg_iterations as nat,
        cg_iteration(
            PipelineId::CgSparseMatvec,
            PipelineId::CgSparseApplyAlpha,
            PipelineId::CgSparseUpdateDir,
            cell,
        ),
    );
}

// ---------------------------------------------------------------------------
// Issuing a schedule
// ---------------------------------------------------------------------------

/// One command of the production encoding of a schedule: a compute pass
/// over the operations `start..end`, or the buffer copy at `index`.
#[derive(Clone, Copy, Debug, PartialEq, Eq, Structural)]
pub enum ProductionStep {
    ComputePass { start: usize, end: usize },
    Copy { index: usize },
}

pub open spec fn is_copy(op: MpmScheduleOp) -> bool {
    op is CopyBufferToBuffer
}

/// Steps emitted and start of the open batch after reading `ops`.
pub open spec fn production_state(ops: Seq<MpmScheduleOp>) -> (Seq<ProductionStep>, nat)
    decreases ops.len(),
{
    if ops.len() == 0 {
        (Seq::empty(), 0)
    } else {
        let (steps, start) = production_state(ops.drop_last());
        let i = (ops.len() - 1) as nat;
        if is_copy(ops.last()) {
            let flushed = if start < i {
                steps.push(ProductionStep::ComputePass { start: start as usize, end: i as usize })
            } else {
                steps
            };
            (flushed.push(ProductionStep::Copy { index: i as usize }), i + 1)
        } else {
            (steps, start)
        }
    }
}

/// Copies are issued on their own; every maximal run of other operations
/// between them becomes one compute pass.
pub open spec fn production_steps_spec(ops: Seq<MpmScheduleOp>) -> Seq<ProductionStep> {
    let (steps, start) = production_state(ops);
    if start < ops.len() {
        steps.push(ProductionStep::ComputePass { start: start as usize, end: ops.len() as usize })
    } else {
        steps
    }
}

/// Splits a schedule into compute passes and buffer copies, in order.
pub fn production_steps(ops: &Vec<MpmScheduleOp>) -> (r: Vec<ProductionStep>)
    ensures
        r@ == production_steps_spec(ops@),
{
    let mut steps: Vec<ProductionStep> = Vec::new();
    let mut batch_start: usize = 0;
    let mut i: usize = 0;
    assert(ops@.subrange(0, 0) =~= Seq::<MpmScheduleOp>::empty());
    while i < ops.len()
        invariant
            i <= ops.len(),
            production_state(ops@.subrange(0, i as int)) == (steps@, batch_start as nat),
            batch_start <= i,
        decreases ops.len() - i,
    {
        let ghost pre = ops@.subrange(0, i as int);
        let ghost next = ops@.subrange(0, i + 1);
        assert(next.drop_last() =~= pre);
        assert(next.last() == ops@[i as int]);
        let is_copy_op = match ops[i] {
            MpmScheduleOp::CopyBufferToBuffer { .. } => true,
            _ => false,
        };
        if is_copy_op {
            if batch_start < i {
                steps.push(ProductionStep::ComputePass { start: batch_start, end: i });
            }
            steps.push(ProductionStep::Copy { index: i });
            batch_start = i + 1;
        }
        i = i + 1;
    }
    assert(ops@.subrange(0, ops.len() as int) =~= ops@);
    if batch_start < ops.len() {
        steps.push(ProductionStep::ComputePass { start: batch_start, end: ops.len() });
    }
    steps
}

/// The operation indices a step covers.
pub open spec fn step_indices(s: ProductionStep) -> Seq<int> {
    match s {
        ProductionStep::ComputePass { start, end } => Seq::new(
            (end - start) as nat,
            |k: int| start + k,
        ),
        ProductionStep::Copy { index } => seq![index as int],
    }
}

pub open spec fn flatten_steps(steps: Seq<ProductionStep>) -> Seq<int>
    decreases steps.len(),
{
    if steps.len() == 0 {
        Seq::empty()
    } else {
        flatten_steps(steps.drop_last()) + step_indices(steps.last())
    }
}

/// Whether each step is well formed: compute passes are non-empty ranges
/// without copies, and copy steps name copies.
pub open spec fn steps_well_formed(ops: Seq<MpmScheduleOp>, steps: Seq<ProductionStep>) -> bool {
    forall|j: int|
        0 <= j < steps.len() ==> match #[trigger] steps[j] {
            ProductionStep::ComputePass { start, end } => start < end <= ops.len() && forall|
                k: int,
            |
                start <= k < end ==> !is_copy(#[trigger] ops[k]),
            ProductionStep::Copy { index } => index < ops.len() && is_copy(ops[index as int]),
        }
}

proof fn lemma_production_state(ops: Seq<MpmScheduleOp>)
    requires
        ops.len() <= usize::MAX,
    ensures
        production_state(ops).1 <= ops.len(),
        flatten_steps(production_state(ops).0) == Seq::new(
            production_state(ops).1,
            |k: int| k,
        ),
        steps_well_formed(ops, production_state(ops).0),
        forall|k: int|
            production_state(ops).1 <= k < ops.len() ==> !is_copy(#[trigger] ops[k]),
    decreases ops.len(),
{
    if ops.len() > 0 {
        let init = ops.drop_last();
        lemma_production_state(init);
        let (steps, start) = production_state(init);
        let i = (ops.len() - 1) as nat;
        assert(forall|k: int| 0 <= k < init.len() ==> init[k] == ops[k]);
        if is_copy(ops.last()) {
            let flushed = if start < i {
                steps.push(ProductionStep::ComputePass { start: start as usize, end: i as usize })
            } else {
                steps
            };
            if start < i {
                assert(flushed.drop_last() =~= steps);
                assert(flatten_steps(flushed) =~= Seq::new(i, |k: int| k));
            } else {
                assert(flatten_steps(flushed) =~= Seq::new(i, |k: int| k));
            }
            let all = flushed.push(ProductionStep::Copy { index: i as usize });
            assert(all.drop_last() =~= flushed);
            assert(flatten_steps(all) =~= Seq::new(i + 1, |k: int| k));
            assert forall|j: int| 0 <= j < all.len() implies match #[trigger] all[j] {
                ProductionStep::ComputePass { start, end } => start < end <= ops.len() && forall|
                    k: int,
                |
                    start <= k < end ==> !is_copy(#[trigger] ops[k]),
                ProductionStep::Copy { index } => index < ops.len() && is_copy(
                    ops[index as int],
                ),
            } by {
                if j < steps.len() {
                    assert(all[j] == steps[j]);
                }
            }
        } else {
            assert forall|j: int| 0 <= j < steps.len() implies match #[trigger] steps[j] {
                ProductionStep::ComputePass { start, end } => start < end <= ops.len() && forall|
                    k: int,
                |
                    start <= k < end ==> !is_copy(#[trigger] ops[k]),
                ProductionStep::Copy { index } => index < ops.len() && is_copy(
                    ops[index as int],
                ),
            } by {
                assert(steps_well_formed(init, steps));
            }
        }
    }
}

/// Whether no compute pass directly follows another: every run of
/// operations between copies is issued as a single pass.
pub open spec fn passes_maximal(steps: Seq<ProductionStep>) -> bool {
    forall|j: int|
        0 <= j && j + 1 < steps.len() ==> !(#[trigger] steps[j] is ComputePass && steps[j
            + 1] is ComputePass)
}

proof fn lemma_production_state_alternates(ops: Seq<MpmScheduleOp>)
    ensures
        passes_maximal(production_state(ops).0),
        production_state(ops).0.len() > 0 ==> production_state(ops).0.last() is Copy,
    decreases ops.len(),
{
    if ops.len() > 0 {
        lemma_production_state_alternates(ops.drop_last());
        let (steps, start) = production_state(ops.drop_last());
        let i = (ops.len() - 1) as nat;
        if is_copy(ops.last()) {
            let flushed = if start < i {
                steps.push(ProductionStep::ComputePass { start: start as usize, end: i as usize })
            } else {
                steps
            };
            let all = flushed.push(ProductionStep::Copy { index: i as usize });
            assert(passes_maximal(flushed)) by {
                assert forall|j: int| 0 <= j && j + 1 < flushed.len() implies !(
                #[trigger] flushed[j] is ComputePass && flushed[j + 1] is ComputePass) by {
                    if j + 1 < steps.len() {
                        assert(flushed[j] == steps[j] && flushed[j + 1] == steps[j + 1]);
                    } else {
                        assert(flushed[j] == steps[j]);
                        assert(steps[j] == steps.last());
                    }
                }
            }
            assert forall|j: int| 0 <= j && j + 1 < all.len() implies !(
            #[trigger] all[j] is ComputePass && all[j + 1] is ComputePass) by {
                if j + 1 < flushed.len() {
                    assert(all[j] == flushed[j] && all[j + 1] == flushed[j + 1]);
                } else {
                    assert(all[j + 1] is Copy);
                }
            }
        }
    }
}

/// The label an operation is timed under; buffer copies have none.
pub open spec fn op_label(op: MpmScheduleOp) -> Option<MpmPassLabel> {
    match op {
        MpmScheduleOp::Pipeline { label, .. } => Some(label),
        MpmScheduleOp::PressureSolve { label, .. } => Some(label),
        MpmScheduleOp::CopyBufferToBuffer { .. } => None,
    }
}

/// Whether an operation moves grid velocities back to the particles or
/// couples them to the bed.
pub open spec fn is_transfer_back(op: MpmScheduleOp) -> bool {
    op_label(op) == Some(MpmPassLabel::G2P) || op_label(op) == Some(MpmPassLabel::BedCoupling)
}

proof fn lemma_repeat_elements(n: nat, block: Seq<MpmScheduleOp>)
    requires
        forall|j: int| 0 <= j < block.len() ==> !is_transfer_back(#[trigger] block[j]),
    ensures
        forall|i: int| 0 <= i < repeat(n, block).len() ==> !is_transfer_back(#[trigger] repeat(n, block)[i]),
    decreases n,
{
    if n > 0 {
        lemma_repeat_elements((n - 1) as nat, block);
        let prev = repeat((n - 1) as nat, block);
        let all = repeat(n, block);
        assert(all == prev + block);
        assert forall|i: int| 0 <= i < all.len() implies !is_transfer_back(#[trigger] all[i]) by {
            if i < prev.len() {
                assert(all[i] == prev[i]);
            } else {
                assert(all[i] == block[i - prev.len()]);
            }
        }
    }
}

proof fn lemma_concat_free(a: Seq<MpmScheduleOp>, b: Seq<MpmScheduleOp>)
    requires
        forall|i: int| 0 <= i < a.len() ==> !is_transfer_back(#[trigger] a[i]),
        forall|i: int| 0 <= i < b.len() ==> !is_transfer_back(#[trigger] b[i]),
    ensures
        forall|i: int| 0 <= i < (a + b).len() ==> !is_transfer_back(#[trigger] (a + b)[i]),
{
    assert forall|i: int| 0 <= i < (a + b).len() implies !is_transfer_back(#[trigger] (a + b)[i]) by {
        if i < a.len() {
            assert((a + b)[i] == a[i]);
        } else {
            assert((a + b)[i] == b[i - a.len()]);
        }
    }
}

/// Grid velocities go back to the particles whenever there are particles,
/// whatever the bed: a substep schedule has a grid-to-particle pass directly
/// followed by a bed-coupling pass, both over all particle workgroups,
/// exactly when the particle dispatch is not empty; without particles it has
/// neither pass.
pub proof fn lemma_particles_get_grid_velocities(d: MpmDispatchSizes, ctx: PressureContext)
    ensures
        d.particle_wg > 0 ==> exists|i: int|
            0 <= i && i + 1 < substep_schedule_spec(d, ctx).len() && #[trigger] substep_schedule_spec(
                d,
                ctx,
            )[i] == pass(MpmPassLabel::G2P, PipelineId::G2P, d.particle_wg) && substep_schedule_spec(
                d,
                ctx,
            )[i + 1] == pass(MpmPassLabel::BedCoupling, PipelineId::BedCoupling, d.particle_wg),
        d.particle_wg == 0 ==> forall|i: int|
            0 <= i < substep_schedule_spec(d, ctx).len() ==> !is_transfer_back(
                #[trigger] substep_schedule_spec(d, ctx)[i],
            ),
{
    let family = pressure_family_spec(ctx);
    let head = schedule_head(d, family);
    let solve = pressure_solve_ops_spec(ctx);
    let middle = schedule_middle(d.cell_wg, family);
    let tail = schedule_tail(d);
    let s = substep_schedule_spec(d, ctx);
    let pre = head + solve + middle;
    assert(s == pre + tail);
    if d.particle_wg > 0 {
        let i = pre.len() as int;
        assert(s[i] == tail[0]);
        assert(s[i + 1] == tail[1]);
    } else {
        assert forall|i: int| 0 <= i < head.len() implies !is_transfer_back(#[trigger] head[i]) by {}
        assert forall|i: int| 0 <= i < middle.len() implies !is_transfer_back(#[trigger] middle[i]) by {}
        assert forall|i: int| 0 <= i < tail.len() implies !is_transfer_back(#[trigger] tail[i]) by {}
        let cell = ctx.cell_wg;
        let indirect = MpmDispatch::IndirectPressure { offset: 0 };
        match (ctx.operator, ctx.kind) {
            (_, PressureSolverKind::SparseCg) => {
                let block = seq![
                    solve_pass(PipelineId::CgSparseMatvec, indirect),
                    solve_pass(PipelineId::CgSparseApplyAlpha, indirect),
                    solve_pass(PipelineId::CgSparseUpdateDir, indirect),
                    solve_pass(PipelineId::CgFinishIteration, MpmDispatch::Direct(1)),
                ];
                let first = seq![
                    solve_pass(PipelineId::CgInit, MpmDispatch::Direct(cell)),
                    solve_pass(PipelineId::CgActiveFinalizeDispatch, MpmDispatch::Direct(1)),
                    solve_pass(PipelineId::CgWarmstart, MpmDispatch::Direct(cell)),
                    MpmScheduleOp::CopyBufferToBuffer {
                        src: BufferId::Metrics,
                        src_offset: (METRIC_PRESSURE_ACTIVE_WORKGROUPS_X_IDX * 4) as u64,
                        dst: BufferId::PressureDispatchArgs,
                        dst_offset: 0,
                        size: 12,
                    },
                ];
                assert forall|j: int| 0 <= j < block.len() implies !is_transfer_back(#[trigger] block[j]) by {}
                assert forall|j: int| 0 <= j < first.len() implies !is_transfer_back(#[trigger] first[j]) by {}
                lemma_repeat_elements(ctx.cg_iterations as nat, block);
                lemma_concat_free(first, repeat(ctx.cg_iterations as nat, block));
                assert(solve == first + repeat(ctx.cg_iterations as nat, block));
            },
            (PressureOperatorKind::Staggered, PressureSolverKind::JacobiCg) => {
                let block = seq![
                    solve_pass(PipelineId::StaggeredCgMatvec, MpmDispatch::Direct(cell)),
                    solve_pass(PipelineId::CgApplyAlpha, MpmDispatch::Direct(cell)),
                    solve_pass(PipelineId::CgUpdateDir, MpmDispatch::Direct(cell)),
                    solve_pass(PipelineId::CgFinishIteration, MpmDispatch::Direct(1)),
                ];
                let first = seq![
                    solve_pass(PipelineId::StaggeredCgInit, MpmDispatch::Direct(cell)),
                    solve_pass(PipelineId::CgWarmstart, MpmDispatch::Direct(cell)),
                ];
                assert forall|j: int| 0 <= j < block.len() implies !is_transfer_back(#[trigger] block[j]) by {}
                assert forall|j: int| 0 <= j < first.len() implies !is_transfer_back(#[trigger] first[j]) by {}
                lemma_repeat_elements(ctx.cg_iterations as nat, block);
                lemma_concat_free(first, repeat(ctx.cg_iterations as nat, block));
                assert(solve == first + repeat(ctx.cg_iterations as nat, block));
            },
            _ => {
                assert forall|j: int| 0 <= j < solve.len() implies !is_transfer_back(#[trigger] solve[j]) by {}
            },
        }
        lemma_concat_free(head, solve);
        lemma_concat_free(head + solve, middle);
        lemma_concat_free(pre, tail);
    }
}

/// Production encoding issues every operation exactly once and in order:
/// the indices covered by the steps, read in order, are `0..ops.len()`;
/// compute passes hold no copy, every copy step names a copy, and no two
/// compute passes are adjacent, so each run between copies is one pass.
pub proof fn lemma_production_steps_cover_in_order(ops: Seq<MpmScheduleOp>)
    requires
        ops.len() <= usize::MAX,
    ensures
        flatten_steps(production_steps_spec(ops)) == Seq::new(ops.len(), |k: int| k),
        steps_well_formed(ops, production_steps_spec(ops)),
        passes_maximal(production_steps_spec(ops)),
{
    lemma_production_state(ops);
    lemma_production_state_alternates(ops);
    let (steps, start) = production_state(ops);
    if start < ops.len() {
        let all = steps.push(
            ProductionStep::ComputePass { start: start as usize, end: ops.len() as usize },
        );
        assert(all.drop_last() =~= steps);
        assert(flatten_steps(all) =~= Seq::new(ops.len(), |k: int| k));
        assert forall|j: int| 0 <= j < all.len() implies match #[trigger] all[j] {
            ProductionStep::ComputePass { start, end } => start < end <= ops.len() && forall|
                k: int,
            |
                start <= k < end ==> !is_copy(#[trigger] ops[k]),
            ProductionStep::Copy { index } => index < ops.len() && is_copy(ops[index as int]),
        } by {
            if j < steps.len() {
                assert(all[j] == steps[j]);
            }
        }
        assert forall|j: int| 0 <= j && j + 1 < all.len() implies !(#[trigger] all[j] is ComputePass
            && all[j + 1] is ComputePass) by {
            if j + 1 < steps.len() {
                assert(all[j] == steps[j] && all[j + 1] == steps[j + 1]);
            } else {
                assert(all[j] == steps[j]);
                assert(steps[j] == steps.last());
            }
        }
    } else {
        assert(Seq::new(start, |k: int| k) =~= Seq::new(ops.len(), |k: int| k));
    }
}

} // verus!
