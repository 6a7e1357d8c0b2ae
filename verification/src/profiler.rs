//! The solver catalog of the offline profiling harness: the simulation
//! backends it can compare on one scene, how a solver or a scene is named on
//! the command line, which settings each solver runs with, and the sizes the
//! harness derives from them.
use vstd::prelude::*;

use crate::pressure::{
    estimated_timestamp_scopes, iterations_per_substep, iterations_per_substep_spec,
    pressure_family_spec, PressureFamily,
    operator_kind_id, parse_solver_kind_spec, result_view, solver_kind_id, timestamp_scopes_spec,
    PressureContext, PressureOperatorKind, PressureSolverKind,
};
use crate::profiling::{ordinal_of, strings_view, SolverRunMetadata};
use crate::scene::{default_v60_spec, free_stream_spec, with_pairs, MpmSettings};
use crate::schedule::{
    pressure_solve_ops_spec, repeat, schedule_head, schedule_middle, schedule_tail, solve_pass,
    substep_schedule_spec, BufferId, MpmDispatch, MpmDispatchSizes, MpmScheduleOp,
    PipelineId, METRIC_PRESSURE_ACTIVE_WORKGROUPS_X_IDX,
};
use crate::text::{
    lemma_lower_plain, lemma_split_once_at, lemma_split_once_none, lemma_trim_plain, chars_eq_str, chars_to_string, eq_ignore_case, framed, lower, normalize_chars, push_str,
    split_once, split_once_chars, str_chars, trim, trim_chars,
};

verus! {

/// Frames run before measuring, when nothing else is asked for.
pub const DEFAULT_WARMUP_FRAMES: u32 = 60;

/// Instrumented frames measured, when nothing else is asked for.
pub const DEFAULT_MEASURED_FRAMES: u32 = 120;

/// Production-path calibration frames, when nothing else is asked for.
pub const DEFAULT_CALIBRATION_FRAMES: u32 = 30;

/// Constraint iterations of one XPBD substep.
pub const XPBD_CONSTRAINT_ITERATIONS: u32 = 6;

/// Timed scopes every MPM substep has besides the pressure solve.
pub const COMMON_TIMED_SCOPES_PER_SUBSTEP: u32 = 17;

/// Smallest timestamp query set the harness allocates.
pub const MIN_TIMESTAMP_QUERY_CAPACITY: u32 = 64;

// ---------------------------------------------------------------------------
// Backends
// ---------------------------------------------------------------------------

/// A simulation backend that can run the profiled scene.
#[derive(Clone, Copy, Debug, PartialEq, Eq, Structural)]
pub enum SimulationBackendKind {
    Mpm,
    Dfsph,
    Xpbd,
}

pub open spec fn backend_kind_id(b: SimulationBackendKind) -> Seq<char> {
    match b {
        SimulationBackendKind::Mpm => "mpm"@,
        SimulationBackendKind::Dfsph => "dfsph"@,
        SimulationBackendKind::Xpbd => "xpbd"@,
    }
}

/// Outcome of parsing a backend name, ignoring surrounding whitespace and
/// ASCII case.
pub open spec fn parse_backend_spec(value: Seq<char>) -> Result<SimulationBackendKind, Seq<char>> {
    let k = lower(trim(value));
    if k == "mpm"@ || k == "mpm-3d"@ {
        Ok(SimulationBackendKind::Mpm)
    } else if k == "dfsph"@ || k == "dfsph-water"@ {
        Ok(SimulationBackendKind::Dfsph)
    } else if k == "xpbd"@ {
        Ok(SimulationBackendKind::Xpbd)
    } else {
        Err("unknown simulation backend '"@ + k + "'; available backends: mpm, dfsph, xpbd"@)
    }
}

impl SimulationBackendKind {
    pub fn id(self) -> (r: &'static str)
        ensures
            r@ == backend_kind_id(self),
    {
        match self {
            SimulationBackendKind::Mpm => "mpm",
            SimulationBackendKind::Dfsph => "dfsph",
            SimulationBackendKind::Xpbd => "xpbd",
        }
    }

    pub fn parse_id(value: &str) -> (r: Result<Self, String>)
        ensures
            result_view(r) == parse_backend_spec(value@),
    {
        Self::parse_chars(&str_chars(value))
    }

    pub fn parse_chars(value: &Vec<char>) -> (r: Result<Self, String>)
        ensures
            result_view(r) == parse_backend_spec(value@),
    {
        let k = normalize_chars(value);
        if chars_eq_str(&k, "mpm") || chars_eq_str(&k, "mpm-3d") {
            Ok(SimulationBackendKind::Mpm)
        } else if chars_eq_str(&k, "dfsph") || chars_eq_str(&k, "dfsph-water") {
            Ok(SimulationBackendKind::Dfsph)
        } else if chars_eq_str(&k, "xpbd") {
            Ok(SimulationBackendKind::Xpbd)
        } else {
            Err(framed("unknown simulation backend '", &k, "'; available backends: mpm, dfsph, xpbd"))
        }
    }
}

impl std::str::FromStr for SimulationBackendKind {
    type Err = String;

    fn from_str(value: &str) -> (r: Result<Self, String>)
        ensures
            result_view(r) == parse_backend_spec(value@),
    {
        Self::parse_id(value)
    }
}

/// The solvers of the XPBD backend.
#[derive(Clone, Copy, Debug, PartialEq, Eq, Structural)]
pub enum XpbdSolverKind {
    Gpu,
}

pub open spec fn xpbd_kind_id(k: XpbdSolverKind) -> Seq<char> {
    match k {
        XpbdSolverKind::Gpu => "gpu"@,
    }
}

/// Outcome of parsing an XPBD solver name; the empty name means the GPU
/// solver.
pub open spec fn parse_xpbd_kind_spec(value: Seq<char>) -> Result<XpbdSolverKind, Seq<char>> {
    let k = lower(trim(value));
    if k.len() == 0 || k == "gpu"@ {
        Ok(XpbdSolverKind::Gpu)
    } else {
        Err("unknown xpbd solver '"@ + k + "'; available solvers: gpu"@)
    }
}

impl XpbdSolverKind {
    pub fn id(self) -> (r: &'static str)
        ensures
            r@ == xpbd_kind_id(self),
    {
        match self {
            XpbdSolverKind::Gpu => "gpu",
        }
    }

    pub fn parse_id(value: &str) -> (r: Result<Self, String>)
        ensures
            result_view(r) == parse_xpbd_kind_spec(value@),
    {
        Self::parse_chars(&str_chars(value))
    }

    pub fn parse_chars(value: &Vec<char>) -> (r: Result<Self, String>)
        ensures
            result_view(r) == parse_xpbd_kind_spec(value@),
    {
        let k = normalize_chars(value);
        if k.len() == 0 || chars_eq_str(&k, "gpu") {
            Ok(XpbdSolverKind::Gpu)
        } else {
            Err(framed("unknown xpbd solver '", &k, "'; available solvers: gpu"))
        }
    }
}

impl std::str::FromStr for XpbdSolverKind {
    type Err = String;

    fn from_str(value: &str) -> (r: Result<Self, String>)
        ensures
            result_view(r) == parse_xpbd_kind_spec(value@),
    {
        Self::parse_id(value)
    }
}

// ---------------------------------------------------------------------------
// Solver specs
// ---------------------------------------------------------------------------

/// One solver the harness can profile: a backend and, where the backend has
/// several, its solver.
#[derive(Clone, Copy, Debug, PartialEq, Eq, Structural)]
pub enum SolverSpec {
    Mpm { pressure: PressureSolverKind },
    Dfsph,
    Xpbd { solver: XpbdSolverKind },
}

pub open spec fn solver_backend(s: SolverSpec) -> SimulationBackendKind {
    match s {
        SolverSpec::Mpm { .. } => SimulationBackendKind::Mpm,
        SolverSpec::Dfsph => SimulationBackendKind::Dfsph,
        SolverSpec::Xpbd { .. } => SimulationBackendKind::Xpbd,
    }
}

/// File-name-safe id: backend and solver joined by `-`.
pub open spec fn solver_spec_id(s: SolverSpec) -> Seq<char> {
    match s {
        SolverSpec::Mpm { pressure } => "mpm-"@ + solver_kind_id(pressure),
        SolverSpec::Dfsph => "dfsph"@,
        SolverSpec::Xpbd { solver } => "xpbd-"@ + xpbd_kind_id(solver),
    }
}

/// Display name: backend and solver joined by `:`, the form the command
/// line accepts.
pub open spec fn solver_spec_display(s: SolverSpec) -> Seq<char> {
    match s {
        SolverSpec::Mpm { pressure } => "mpm:"@ + solver_kind_id(pressure),
        SolverSpec::Dfsph => "dfsph"@,
        SolverSpec::Xpbd { solver } => "xpbd:"@ + xpbd_kind_id(solver),
    }
}

pub open spec fn parse_dfsph_solver_spec(value: Seq<char>) -> Result<SolverSpec, Seq<char>> {
    let k = lower(trim(value));
    if k.len() == 0 || k == "water"@ {
        Ok(SolverSpec::Dfsph)
    } else {
        Err("unknown dfsph solver '"@ + k + "'; available solvers: water"@)
    }
}

/// Outcome of parsing one solver spec: `backend:solver`, or a bare name,
/// which is `dfsph`, `dfsph-water`, `xpbd` or a pressure solver of the MPM
/// backend.
pub open spec fn parse_solver_spec_spec(value: Seq<char>) -> Result<SolverSpec, Seq<char>> {
    let t = trim(value);
    match split_once(t, ':') {
        Some((b, sv)) => match parse_backend_spec(b) {
            Err(e) => Err(e),
            Ok(SimulationBackendKind::Mpm) => match parse_solver_kind_spec(sv) {
                Ok(p) => Ok(SolverSpec::Mpm { pressure: p }),
                Err(e) => Err(e),
            },
            Ok(SimulationBackendKind::Dfsph) => parse_dfsph_solver_spec(sv),
            Ok(SimulationBackendKind::Xpbd) => match parse_xpbd_kind_spec(sv) {
                Ok(x) => Ok(SolverSpec::Xpbd { solver: x }),
                Err(e) => Err(e),
            },
        },
        None => if lower(t) == lower("dfsph"@) || lower(t) == lower("dfsph-water"@) {
            Ok(SolverSpec::Dfsph)
        } else if lower(t) == lower("xpbd"@) {
            Ok(SolverSpec::Xpbd { solver: XpbdSolverKind::Gpu })
        } else {
            match parse_solver_kind_spec(t) {
                Ok(p) => Ok(SolverSpec::Mpm { pressure: p }),
                Err(e) => Err(e),
            }
        },
    }
}

/// Every solver the harness can run, in the order `all` runs them.
pub open spec fn runnable_specs_spec() -> Seq<SolverSpec> {
    seq![
        SolverSpec::Mpm { pressure: PressureSolverKind::Rbgs },
        SolverSpec::Mpm { pressure: PressureSolverKind::JacobiCg },
        SolverSpec::Mpm { pressure: PressureSolverKind::SparseCg },
        SolverSpec::Dfsph,
        SolverSpec::Xpbd { solver: XpbdSolverKind::Gpu },
    ]
}

/// Which pressure operators a solver can run with: the staggered operator
/// only with the Jacobi-CG MPM solver, or with XPBD, which has no grid
/// pressure of its own.
pub open spec fn supports_operator_spec(s: SolverSpec, op: PressureOperatorKind) -> bool {
    match s {
        SolverSpec::Mpm { pressure: PressureSolverKind::JacobiCg } => true,
        SolverSpec::Mpm { .. } => op == PressureOperatorKind::Collocated,
        SolverSpec::Dfsph => op == PressureOperatorKind::Collocated,
        SolverSpec::Xpbd { .. } => true,
    }
}

impl SolverSpec {
    pub fn mpm(pressure: PressureSolverKind) -> (r: Self)
        ensures
            r == (SolverSpec::Mpm { pressure }),
    {
        SolverSpec::Mpm { pressure }
    }

    pub fn backend(self) -> (r: SimulationBackendKind)
        ensures
            r == solver_backend(self),
    {
        match self {
            SolverSpec::Mpm { .. } => SimulationBackendKind::Mpm,
            SolverSpec::Dfsph => SimulationBackendKind::Dfsph,
            SolverSpec::Xpbd { .. } => SimulationBackendKind::Xpbd,
        }
    }

    /// The id used in output file names and run metadata.
    pub fn id(self) -> (r: String)
        ensures
            r@ == solver_spec_id(self),
    {
        let mut out: Vec<char> = Vec::new();
        match self {
            SolverSpec::Mpm { pressure } => {
                push_str(&mut out, "mpm-");
                push_str(&mut out, pressure.id());
            },
            SolverSpec::Dfsph => {
                push_str(&mut out, "dfsph");
            },
            SolverSpec::Xpbd { solver } => {
                push_str(&mut out, "xpbd-");
                push_str(&mut out, solver.id());
            },
        }
        chars_to_string(&out)
    }

    /// The name the solver is shown and requested under.
    pub fn display_name(self) -> (r: String)
        ensures
            r@ == solver_spec_display(self),
    {
        let mut out: Vec<char> = Vec::new();
        match self {
            SolverSpec::Mpm { pressure } => {
                push_str(&mut out, "mpm:");
                push_str(&mut out, pressure.id());
            },
            SolverSpec::Dfsph => {
                push_str(&mut out, "dfsph");
            },
            SolverSpec::Xpbd { solver } => {
                push_str(&mut out, "xpbd:");
                push_str(&mut out, solver.id());
            },
        }
        chars_to_string(&out)
    }

    /// Every solver the harness can run, in the order `all` runs them.
    pub fn runnable_specs() -> (r: Vec<Self>)
        ensures
            r@ == runnable_specs_spec(),
    {
        let mut specs: Vec<SolverSpec> = Vec::new();
        let mut i: usize = 0;
        while i < 3
            invariant
                i <= 3,
                specs@ == runnable_specs_spec().subrange(0, i as int),
            decreases 3 - i,
        {
            specs.push(SolverSpec::Mpm { pressure: PressureSolverKind::ALL[i] });
            i = i + 1;
        }
        specs.push(SolverSpec::Dfsph);
        specs.push(SolverSpec::Xpbd { solver: XpbdSolverKind::Gpu });
        assert(specs@ =~= runnable_specs_spec());
        specs
    }

    pub fn supports_pressure_operator(self, operator: PressureOperatorKind) -> (r: bool)
        ensures
            r == supports_operator_spec(self, operator),
    {
        match self {
            SolverSpec::Mpm { pressure: PressureSolverKind::JacobiCg } => true,
            SolverSpec::Mpm { .. } => operator == PressureOperatorKind::Collocated,
            SolverSpec::Dfsph => operator == PressureOperatorKind::Collocated,
            SolverSpec::Xpbd { .. } => true,
        }
    }

    /// Parses one solver spec.
    pub fn parse_id(value: &str) -> (r: Result<Self, String>)
        ensures
            result_view(r) == parse_solver_spec_spec(value@),
    {
        Self::parse_chars(&str_chars(value))
    }

    /// `parse_id` on a spec already read into characters.
    pub fn parse_chars(value: &Vec<char>) -> (r: Result<Self, String>)
        ensures
            result_view(r) == parse_solver_spec_spec(value@),
    {
        let t = trim_chars(value);
        match split_once_chars(&t, ':') {
            Some((b, sv)) => match SimulationBackendKind::parse_chars(&b) {
                Err(e) => Err(e),
                Ok(SimulationBackendKind::Mpm) => match PressureSolverKind::parse_chars(&sv) {
                    Ok(p) => Ok(SolverSpec::Mpm { pressure: p }),
                    Err(e) => Err(e),
                },
                Ok(SimulationBackendKind::Dfsph) => {
                    let k = normalize_chars(&sv);
                    if k.len() == 0 || chars_eq_str(&k, "water") {
                        Ok(SolverSpec::Dfsph)
                    } else {
                        Err(framed("unknown dfsph solver '", &k, "'; available solvers: water"))
                    }
                },
                Ok(SimulationBackendKind::Xpbd) => match XpbdSolverKind::parse_chars(&sv) {
                    Ok(x) => Ok(SolverSpec::Xpbd { solver: x }),
                    Err(e) => Err(e),
                },
            },
            None => {
                if eq_ignore_case(&t, "dfsph") || eq_ignore_case(&t, "dfsph-water") {
                    Ok(SolverSpec::Dfsph)
                } else if eq_ignore_case(&t, "xpbd") {
                    Ok(SolverSpec::Xpbd { solver: XpbdSolverKind::Gpu })
                } else {
                    match PressureSolverKind::parse_chars(&t) {
                        Ok(p) => Ok(SolverSpec::Mpm { pressure: p }),
                        Err(e) => Err(e),
                    }
                }
            },
        }
    }
}

impl std::str::FromStr for SolverSpec {
    type Err = String;

    fn from_str(value: &str) -> (r: Result<Self, String>)
        ensures
            result_view(r) == parse_solver_spec_spec(value@),
    {
        Self::parse_id(value)
    }
}


// ---------------------------------------------------------------------------
// Solver lists
// ---------------------------------------------------------------------------

pub open spec fn no_solvers_message() -> Seq<char> {
    "no profiler solvers selected; use a solver spec like mpm:rbgs, dfsph, xpbd:gpu, or all"@
}

/// Parses the comma-separated pieces in order; blank pieces are skipped and
/// the first piece that does not parse decides the error.
pub open spec fn parse_spec_parts(parts: Seq<Seq<char>>) -> Result<Seq<SolverSpec>, Seq<char>>
    decreases parts.len(),
{
    if parts.len() == 0 {
        Ok(Seq::empty())
    } else {
        match parse_spec_parts(parts.drop_last()) {
            Err(e) => Err(e),
            Ok(done) => if trim(parts.last()).len() == 0 {
                Ok(done)
            } else {
                match parse_solver_spec_spec(parts.last()) {
                    Ok(s) => Ok(done.push(s)),
                    Err(e) => Err(e),
                }
            },
        }
    }
}

/// Outcome of parsing a solver selection: `all` (in any ASCII case) is
/// every runnable solver; otherwise a comma-separated list of solver specs
/// that must name at least one solver.
pub open spec fn parse_solver_specs_spec(value: Seq<char>) -> Result<Seq<SolverSpec>, Seq<char>> {
    let t = trim(value);
    if lower(t) == lower("all"@) {
        Ok(runnable_specs_spec())
    } else {
        match parse_spec_parts(crate::text::split_on(t, ',')) {
            Err(e) => Err(e),
            Ok(specs) => if specs.len() == 0 {
                Err(no_solvers_message())
            } else {
                Ok(specs)
            },
        }
    }
}

pub open spec fn specs_result_view(r: Result<Vec<SolverSpec>, String>) -> Result<Seq<SolverSpec>, Seq<char>> {
    match r {
        Ok(v) => Ok(v@),
        Err(e) => Err(e@),
    }
}

proof fn lemma_parse_spec_parts_err_sticks(parts: Seq<Seq<char>>, i: int)
    requires
        0 <= i <= parts.len(),
        parse_spec_parts(parts.subrange(0, i)) is Err,
    ensures
        parse_spec_parts(parts) == parse_spec_parts(parts.subrange(0, i)),
    decreases parts.len() - i,
{
    if i < parts.len() {
        assert(parts.subrange(0, i + 1).drop_last() =~= parts.subrange(0, i));
        lemma_parse_spec_parts_err_sticks(parts, i + 1);
    } else {
        assert(parts.subrange(0, i) =~= parts);
    }
}

/// Parses a solver selection, returning the reason when it selects nothing
/// or names an unknown solver.
pub fn try_parse_solver_specs(value: &str) -> (r: Result<Vec<SolverSpec>, String>)
    ensures
        specs_result_view(r) == parse_solver_specs_spec(value@),
{
    let chars = str_chars(value);
    let t = trim_chars(&chars);
    if eq_ignore_case(&t, "all") {
        return Ok(SolverSpec::runnable_specs());
    }
    let parts = crate::text::split_chars(&t, ',');
    let mut out: Vec<SolverSpec> = Vec::new();
    let mut i: usize = 0;
    assert(parts.deep_view().subrange(0, 0) =~= Seq::<Seq<char>>::empty());
    while i < parts.len()
        invariant
            i <= parts.len(),
            t@ == trim(value@),
            lower(t@) != lower("all"@),
            parts.deep_view() == crate::text::split_on(t@, ','),
            parse_spec_parts(parts.deep_view().subrange(0, i as int)) == Ok::<
                Seq<SolverSpec>,
                Seq<char>,
            >(out@),
        decreases parts.len() - i,
    {
        let ghost pre = parts.deep_view().subrange(0, i as int);
        let ghost next = parts.deep_view().subrange(0, i + 1);
        assert(next.drop_last() =~= pre);
        assert(next.last() == parts@[i as int]@);
        let piece = trim_chars(&parts[i]);
        if piece.len() > 0 {
            match SolverSpec::parse_chars(&parts[i]) {
                Ok(s) => {
                    out.push(s);
                },
                Err(e) => {
                    assert(parse_spec_parts(next) == Err::<Seq<SolverSpec>, Seq<char>>(e@));
                    proof {
                        lemma_parse_spec_parts_err_sticks(parts.deep_view(), i + 1);
                    }
                    return Err(e);
                },
            }
        }
        i = i + 1;
    }
    assert(parts.deep_view().subrange(0, parts.len() as int) =~= parts.deep_view());
    if out.len() == 0 {
        return Err(
            chars_to_string(
                &str_chars(
                    "no profiler solvers selected; use a solver spec like mpm:rbgs, dfsph, xpbd:gpu, or all",
                ),
            ),
        );
    }
    Ok(out)
}

/// Parses a solver selection that is known to be valid.
pub fn parse_solver_specs(value: &str) -> (r: Vec<SolverSpec>)
    requires
        parse_solver_specs_spec(value@) is Ok,
    ensures
        parse_solver_specs_spec(value@) == Ok::<Seq<SolverSpec>, Seq<char>>(r@),
{
    match try_parse_solver_specs(value) {
        Ok(v) => v,
        Err(_) => {
            assert(false);
            Vec::new()
        },
    }
}

/// Every solver the harness can run, in the order `all` runs them.
pub fn runnable_solver_specs() -> (r: Vec<SolverSpec>)
    ensures
        r@ == runnable_specs_spec(),
{
    SolverSpec::runnable_specs()
}

/// The `--list-solvers` lines for `specs`.
pub open spec fn solver_lines(specs: Seq<SolverSpec>) -> Seq<char>
    decreases specs.len(),
{
    if specs.len() == 0 {
        Seq::empty()
    } else {
        solver_lines(specs.drop_last()) + "  "@ + solver_spec_display(specs.last()) + "\n"@
    }
}

/// The text printed for `--list-solvers`: every runnable solver, then `all`.
pub open spec fn solver_list_summary_spec() -> Seq<char> {
    "available profiler solvers:\n"@ + solver_lines(runnable_specs_spec()) + "  all\n"@
}

pub fn solver_list_summary() -> (r: String)
    ensures
        r@ == solver_list_summary_spec(),
{
    let mut out: Vec<char> = Vec::new();
    push_str(&mut out, "available profiler solvers:\n");
    let specs = SolverSpec::runnable_specs();
    let mut i: usize = 0;
    assert(specs@.subrange(0, 0) =~= Seq::<SolverSpec>::empty());
    while i < specs.len()
        invariant
            i <= specs.len(),
            specs@ == runnable_specs_spec(),
            out@ == "available profiler solvers:\n"@ + solver_lines(specs@.subrange(0, i as int)),
        decreases specs.len() - i,
    {
        let ghost next = specs@.subrange(0, i + 1);
        assert(next.drop_last() =~= specs@.subrange(0, i as int));
        push_str(&mut out, "  ");
        let name = specs[i].display_name();
        push_str(&mut out, name.as_str());
        push_str(&mut out, "\n");
        assert(out@ =~= "available profiler solvers:\n"@ + solver_lines(next));
        i = i + 1;
    }
    assert(specs@.subrange(0, specs.len() as int) =~= specs@);
    push_str(&mut out, "  all\n");
    chars_to_string(&out)
}

pub open spec fn profiler_usage_spec() -> Seq<char> {
    "usage: profile_solvers [OPTIONS]\n\nOptions:\n  --scene <center_pour|free_stream|water_block>\n  --solver <SOLVER>          Run one solver, or all\n  --solvers <A,B|all>        Run multiple solvers\n  --pressure-operator <collocated|staggered>\n  --warmup <N> --frames <N> --cal <N>\n  --out <PATH>\n  --cg-iterations <N>\n  --dry-run[=true|false]     Print the resolved run plan without GPU work\n  --dry-run-json             Print the resolved run plan as JSON without GPU work\n  --list-solvers             Print available solver specs\n  -h, --help                 Print this help\n\nKwargs are also accepted, e.g. scene=center_pour solvers=all frames=30.\n"@
}

/// The `--help` text.
pub fn profiler_usage() -> (r: &'static str)
    ensures
        r@ == profiler_usage_spec(),
{
    "usage: profile_solvers [OPTIONS]\n\nOptions:\n  --scene <center_pour|free_stream|water_block>\n  --solver <SOLVER>          Run one solver, or all\n  --solvers <A,B|all>        Run multiple solvers\n  --pressure-operator <collocated|staggered>\n  --warmup <N> --frames <N> --cal <N>\n  --out <PATH>\n  --cg-iterations <N>\n  --dry-run[=true|false]     Print the resolved run plan without GPU work\n  --dry-run-json             Print the resolved run plan as JSON without GPU work\n  --list-solvers             Print available solver specs\n  -h, --help                 Print this help\n\nKwargs are also accepted, e.g. scene=center_pour solvers=all frames=30.\n"
}

// ---------------------------------------------------------------------------
// Scenes
// ---------------------------------------------------------------------------

/// The scene every solver of a profiling run shares.
#[derive(Clone, Copy, Debug, PartialEq, Eq, Structural)]
pub enum ProfileScene {
    CenterPour,
    FreeStream,
    WaterBlock,
}

pub open spec fn profile_scene_id(s: ProfileScene) -> Seq<char> {
    match s {
        ProfileScene::CenterPour => "center_pour"@,
        ProfileScene::FreeStream => "free_stream"@,
        ProfileScene::WaterBlock => "water_block"@,
    }
}

/// Outcome of parsing a scene name: `_` and `-` spellings are accepted, and
/// the empty name means the centre pour.
pub open spec fn parse_profile_scene_spec(value: Seq<char>) -> Result<ProfileScene, Seq<char>> {
    let k = lower(trim(value));
    if k.len() == 0 || k == "center_pour"@ || k == "center-pour"@ {
        Ok(ProfileScene::CenterPour)
    } else if k == "free_stream"@ || k == "free-stream"@ {
        Ok(ProfileScene::FreeStream)
    } else if k == "water_block"@ || k == "water-block"@ {
        Ok(ProfileScene::WaterBlock)
    } else {
        Err(
            "unknown profile scene '"@ + k
                + "'; available scenes: center_pour, free_stream, water_block"@,
        )
    }
}

pub open spec fn profile_scene_settings(s: ProfileScene) -> MpmSettings {
    match s {
        ProfileScene::CenterPour => default_v60_spec(),
        ProfileScene::FreeStream => free_stream_spec(),
        ProfileScene::WaterBlock => with_pairs(default_v60_spec(), 80),
    }
}

impl ProfileScene {
    pub fn id(self) -> (r: &'static str)
        ensures
            r@ == profile_scene_id(self),
    {
        match self {
            ProfileScene::CenterPour => "center_pour",
            ProfileScene::FreeStream => "free_stream",
            ProfileScene::WaterBlock => "water_block",
        }
    }

    /// The benchmark settings of the scene.
    pub fn mpm_settings(self) -> (r: MpmSettings)
        ensures
            r == profile_scene_settings(self),
    {
        match self {
            ProfileScene::CenterPour => MpmSettings::benchmark_center_pour(),
            ProfileScene::FreeStream => MpmSettings::benchmark_free_stream(),
            ProfileScene::WaterBlock => MpmSettings::benchmark_filter_water_block(),
        }
    }

    pub fn parse_id(value: &str) -> (r: Result<Self, String>)
        ensures
            result_view(r) == parse_profile_scene_spec(value@),
    {
        Self::parse_chars(&str_chars(value))
    }

    pub fn parse_chars(value: &Vec<char>) -> (r: Result<Self, String>)
        ensures
            result_view(r) == parse_profile_scene_spec(value@),
    {
        let k = normalize_chars(value);
        if k.len() == 0 || chars_eq_str(&k, "center_pour") || chars_eq_str(&k, "center-pour") {
            Ok(ProfileScene::CenterPour)
        } else if chars_eq_str(&k, "free_stream") || chars_eq_str(&k, "free-stream") {
            Ok(ProfileScene::FreeStream)
        } else if chars_eq_str(&k, "water_block") || chars_eq_str(&k, "water-block") {
            Ok(ProfileScene::WaterBlock)
        } else {
            Err(
                framed(
                    "unknown profile scene '",
                    &k,
                    "'; available scenes: center_pour, free_stream, water_block",
                ),
            )
        }
    }
}

impl std::str::FromStr for ProfileScene {
    type Err = String;

    fn from_str(value: &str) -> (r: Result<Self, String>)
        ensures
            result_view(r) == parse_profile_scene_spec(value@),
    {
        Self::parse_id(value)
    }
}


// ---------------------------------------------------------------------------
// Timestamp budgets
// ---------------------------------------------------------------------------

pub open spec fn max_u32(a: u32, b: u32) -> u32 {
    if a >= b {
        a
    } else {
        b
    }
}

/// Timed GPU passes of one XPBD substep: four fixed passes, then per
/// constraint iteration three passes plus two between consecutive
/// iterations.
pub open spec fn xpbd_passes_per_substep_spec() -> int {
    4 + XPBD_CONSTRAINT_ITERATIONS * 3 + (XPBD_CONSTRAINT_ITERATIONS - 1) * 2
}

pub fn xpbd_profiled_gpu_passes_per_substep() -> (r: u32)
    ensures
        r == xpbd_passes_per_substep_spec(),
{
    4 + XPBD_CONSTRAINT_ITERATIONS * 3 + (XPBD_CONSTRAINT_ITERATIONS - 1) * 2
}

/// Timestamp slots for an XPBD run: a begin and an end stamp for each XPBD
/// pass and each of the seven shared tail passes of every substep, and never
/// fewer than the harness minimum.
pub open spec fn xpbd_capacity_spec(substeps: u32) -> int {
    let need = max_u32(substeps, 1) * (xpbd_passes_per_substep_spec() + 7) * 2;
    if need >= MIN_TIMESTAMP_QUERY_CAPACITY {
        need
    } else {
        MIN_TIMESTAMP_QUERY_CAPACITY as int
    }
}

pub fn xpbd_profiler_timestamp_query_capacity(substeps: u32) -> (r: u32)
    requires
        max_u32(substeps, 1) * (xpbd_passes_per_substep_spec() + 7) * 2 <= u32::MAX,
    ensures
        r == xpbd_capacity_spec(substeps),
        r >= max_u32(substeps, 1) * (xpbd_passes_per_substep_spec() + 7) * 2,
{
    let xpbd_passes = xpbd_profiled_gpu_passes_per_substep();
    let shared_tail_passes: u32 = 7;
    let passes_per_substep = xpbd_passes + shared_tail_passes;
    let s = if substeps >= 1 {
        substeps
    } else {
        1
    };
    let need = s * passes_per_substep * 2;
    if need >= MIN_TIMESTAMP_QUERY_CAPACITY {
        need
    } else {
        MIN_TIMESTAMP_QUERY_CAPACITY
    }
}

/// Timestamp slots for a DFSPH run: forty timed passes per substep (the
/// DFSPH passes plus the shared grid, pressure, bed and render tail), two
/// stamps each, and never fewer than the harness minimum.
pub open spec fn dfsph_capacity_spec(substeps: u32) -> int {
    let need = max_u32(substeps, 1) * 40 * 2;
    if need >= MIN_TIMESTAMP_QUERY_CAPACITY {
        need
    } else {
        MIN_TIMESTAMP_QUERY_CAPACITY as int
    }
}

pub fn dfsph_profiler_timestamp_query_capacity(substeps: u32) -> (r: u32)
    requires
        max_u32(substeps, 1) * 40 * 2 <= u32::MAX,
    ensures
        r == dfsph_capacity_spec(substeps),
        r >= max_u32(substeps, 1) * 80,
{
    let passes_per_substep: u32 = 40;
    let s = if substeps >= 1 {
        substeps
    } else {
        1
    };
    let need = s * passes_per_substep * 2;
    if need >= MIN_TIMESTAMP_QUERY_CAPACITY {
        need
    } else {
        MIN_TIMESTAMP_QUERY_CAPACITY
    }
}

/// The pressure solve an MPM run with `settings` performs, given the
/// red/black pairs the last substep actually used.
pub open spec fn profiled_pressure_context(settings: MpmSettings, last_rbgs_pairs: u32) -> PressureContext {
    PressureContext {
        kind: settings.pressure_solver,
        operator: settings.pressure_operator,
        cell_wg: 0,
        rbgs_pairs: max_u32(last_rbgs_pairs, settings.pressure_rbgs_pairs),
        cg_iterations: settings.pressure_cg_iterations,
    }
}

/// Solver iterations one substep of an MPM run performs.
pub fn pressure_solver_iterations_per_substep(settings: &MpmSettings, last_rbgs_pairs: u32) -> (r: u32)
    ensures
        r == iterations_per_substep_spec(profiled_pressure_context(*settings, last_rbgs_pairs)),
{
    let pairs = if last_rbgs_pairs >= settings.pressure_rbgs_pairs {
        last_rbgs_pairs
    } else {
        settings.pressure_rbgs_pairs
    };
    iterations_per_substep(
        PressureContext {
            kind: settings.pressure_solver,
            operator: settings.pressure_operator,
            cell_wg: 0,
            rbgs_pairs: pairs,
            cg_iterations: settings.pressure_cg_iterations,
        },
    )
}

/// Timestamp slots for an MPM run: two stamps for every common scope and
/// every pressure scope of a substep, eight more, and never fewer than the
/// harness minimum.
pub open spec fn mpm_capacity_spec(settings: MpmSettings, last_rbgs_pairs: u32) -> int {
    let scopes = COMMON_TIMED_SCOPES_PER_SUBSTEP + timestamp_scopes_spec(
        profiled_pressure_context(settings, last_rbgs_pairs),
    );
    let need = scopes * 2 + 8;
    if need >= MIN_TIMESTAMP_QUERY_CAPACITY {
        need
    } else {
        MIN_TIMESTAMP_QUERY_CAPACITY as int
    }
}

pub fn profiler_timestamp_query_capacity(settings: &MpmSettings, last_rbgs_pairs: u32) -> (r: u32)
    requires
        (COMMON_TIMED_SCOPES_PER_SUBSTEP + timestamp_scopes_spec(
            profiled_pressure_context(*settings, last_rbgs_pairs),
        )) * 2 + 8 <= u32::MAX,
    ensures
        r == mpm_capacity_spec(*settings, last_rbgs_pairs),
{
    let pairs = if last_rbgs_pairs >= settings.pressure_rbgs_pairs {
        last_rbgs_pairs
    } else {
        settings.pressure_rbgs_pairs
    };
    let ctx = PressureContext {
        kind: settings.pressure_solver,
        operator: settings.pressure_operator,
        cell_wg: 0,
        rbgs_pairs: pairs,
        cg_iterations: settings.pressure_cg_iterations,
    };
    let scopes = COMMON_TIMED_SCOPES_PER_SUBSTEP + estimated_timestamp_scopes(ctx);
    let need = scopes * 2 + 8;
    if need >= MIN_TIMESTAMP_QUERY_CAPACITY {
        need
    } else {
        MIN_TIMESTAMP_QUERY_CAPACITY
    }
}

// ---------------------------------------------------------------------------
// Per-solver settings and metadata
// ---------------------------------------------------------------------------

/// What one profiling run shares between its solvers.
pub struct ProfilerRunConfig<'a> {
    pub scene: ProfileScene,
    pub warmup: u32,
    pub measured: u32,
    pub calibration: u32,
    pub cg_iterations: Option<u32>,
    pub pressure_operator: PressureOperatorKind,
    pub solver_ids: Vec<String>,
    pub base_output_path: &'a String,
    pub multiple_outputs: bool,
}

/// The scene settings a solver runs with: an MPM solver takes its pressure
/// solver, the run's operator and, when given, the run's CG budget; DFSPH
/// takes the run's operator for its grid tail; XPBD runs the scene as is.
pub open spec fn settings_for_solver_spec(
    solver: SolverSpec,
    operator: PressureOperatorKind,
    cg_iterations: Option<u32>,
    base: MpmSettings,
) -> MpmSettings {
    match solver {
        SolverSpec::Mpm { pressure } => MpmSettings {
            pressure_solver: pressure,
            pressure_operator: operator,
            pressure_cg_iterations: match cg_iterations {
                Some(n) => n,
                None => base.pressure_cg_iterations,
            },
            ..base
        },
        SolverSpec::Dfsph => MpmSettings { pressure_operator: operator, ..base },
        SolverSpec::Xpbd { .. } => base,
    }
}

pub fn settings_for_solver_with_base(
    solver: SolverSpec,
    run: &ProfilerRunConfig,
    settings: MpmSettings,
) -> (r: MpmSettings)
    ensures
        r == settings_for_solver_spec(solver, run.pressure_operator, run.cg_iterations, settings),
{
    let mut settings = settings;
    match solver {
        SolverSpec::Mpm { pressure } => {
            settings.pressure_solver = pressure;
            settings.pressure_operator = run.pressure_operator;
            settings.pressure_cg_iterations =
                match run.cg_iterations {
                    Some(n) => n,
                    None => settings.pressure_cg_iterations,
                };
        },
        SolverSpec::Dfsph => {
            settings.pressure_operator = run.pressure_operator;
        },
        SolverSpec::Xpbd { .. } => {},
    }
    settings
}

/// The run's scene settings as `solver` runs them.
pub fn settings_for_solver(solver: SolverSpec, run: &ProfilerRunConfig) -> (r: MpmSettings)
    ensures
        r == settings_for_solver_spec(
            solver,
            run.pressure_operator,
            run.cg_iterations,
            profile_scene_settings(run.scene),
        ),
{
    settings_for_solver_with_base(solver, run, run.scene.mpm_settings())
}

/// Pressure metadata of an MPM solver.
pub struct PressureSolverMetadata {
    pub kind: String,
    pub operator: String,
    pub iterations_per_substep: u32,
}

/// Metadata of the DFSPH solver and its shared grid pressure tail.
pub struct DfsphSolverMetadata {
    pub kind: String,
    pub divergence_iterations_per_substep: u32,
    pub density_iterations_per_substep: u32,
    pub grid_pressure_kind: String,
    pub grid_pressure_operator: String,
    pub grid_pressure_iterations_per_substep: u32,
}

/// Metadata of the XPBD solver.
pub struct XpbdSolverMetadata {
    pub kind: String,
    pub constraint_iterations_per_substep: u32,
}

/// What a report says about the solver it measured: its backend and the
/// section of that backend.
pub struct SolverMetadata {
    pub backend: String,
    pub pressure: Option<PressureSolverMetadata>,
    pub dfsph: Option<DfsphSolverMetadata>,
    pub xpbd: Option<XpbdSolverMetadata>,
}

/// The metadata a dry run reports for `solver` running with `settings`.
pub open spec fn is_dry_run_metadata(m: SolverMetadata, solver: SolverSpec, settings: MpmSettings) -> bool {
    &&& m.backend@ == backend_kind_id(solver_backend(solver))
    &&& match solver {
        SolverSpec::Mpm { pressure } => {
            &&& m.pressure matches Some(p) && p.kind@ == solver_kind_id(pressure)
                && p.operator@ == operator_kind_id(settings.pressure_operator)
                && p.iterations_per_substep == settings.pressure_cg_iterations
            &&& m.dfsph is None
            &&& m.xpbd is None
        },
        SolverSpec::Dfsph => {
            &&& m.pressure is None
            &&& m.dfsph matches Some(d) && d.kind@ == "water"@
                && d.divergence_iterations_per_substep == 1
                && d.density_iterations_per_substep == 2
                && d.grid_pressure_kind@ == solver_kind_id(settings.pressure_solver)
                && d.grid_pressure_operator@ == operator_kind_id(settings.pressure_operator)
                && d.grid_pressure_iterations_per_substep == settings.pressure_cg_iterations
            &&& m.xpbd is None
        },
        SolverSpec::Xpbd { solver: kind } => {
            &&& m.pressure is None
            &&& m.dfsph is None
            &&& m.xpbd matches Some(x) && x.kind@ == xpbd_kind_id(kind)
                && x.constraint_iterations_per_substep == XPBD_CONSTRAINT_ITERATIONS
        },
    }
}

fn static_string(s: &str) -> (r: String)
    ensures
        r@ == s@,
{
    chars_to_string(&str_chars(s))
}

pub fn dry_run_solver_metadata(solver: SolverSpec, settings: &MpmSettings) -> (r: SolverMetadata)
    ensures
        is_dry_run_metadata(r, solver, *settings),
{
    let backend = static_string(solver.backend().id());
    match solver {
        SolverSpec::Mpm { pressure } => SolverMetadata {
            backend,
            pressure: Some(
                PressureSolverMetadata {
                    kind: static_string(pressure.id()),
                    operator: static_string(settings.pressure_operator.id()),
                    iterations_per_substep: settings.pressure_cg_iterations,
                },
            ),
            dfsph: None,
            xpbd: None,
        },
        SolverSpec::Dfsph => SolverMetadata {
            backend,
            pressure: None,
            dfsph: Some(
                DfsphSolverMetadata {
                    kind: static_string("water"),
                    divergence_iterations_per_substep: 1,
                    density_iterations_per_substep: 2,
                    grid_pressure_kind: static_string(settings.pressure_solver.id()),
                    grid_pressure_operator: static_string(settings.pressure_operator.id()),
                    grid_pressure_iterations_per_substep: settings.pressure_cg_iterations,
                },
            ),
            xpbd: None,
        },
        SolverSpec::Xpbd { solver: kind } => SolverMetadata {
            backend,
            pressure: None,
            dfsph: None,
            xpbd: Some(
                XpbdSolverMetadata {
                    kind: static_string(kind.id()),
                    constraint_iterations_per_substep: XPBD_CONSTRAINT_ITERATIONS,
                },
            ),
        },
    }
}

// ---------------------------------------------------------------------------
// Output paths and run metadata
// ---------------------------------------------------------------------------

/// Index just past the last `c` in `s`, or 0 when `s` has none.
pub open spec fn after_last(s: Seq<char>, c: char) -> nat
    decreases s.len(),
{
    if s.len() == 0 {
        0
    } else if s.last() == c {
        s.len()
    } else {
        after_last(s.drop_last(), c)
    }
}

/// Stem and extension of a file name, split at its last `.`; a name without
/// a dot, and a name whose only dot leads it, have no extension.
pub open spec fn stem_and_extension(name: Seq<char>) -> (Seq<char>, Option<Seq<char>>) {
    let d = after_last(name, '.');
    if d <= 1 {
        (name, None)
    } else {
        (name.subrange(0, d - 1), Some(name.subrange(d as int, name.len() as int)))
    }
}

/// `s` without trailing `/`, keeping at least one character.
pub open spec fn strip_trailing_slashes(s: Seq<char>) -> Seq<char>
    decreases s.len(),
{
    if s.len() > 1 && s.last() == '/' {
        strip_trailing_slashes(s.drop_last())
    } else {
        s
    }
}

/// Whether the last component of a path names no file: it is empty, `.`
/// or `..`.
pub open spec fn names_no_file(name: Seq<char>) -> bool {
    name.len() == 0 || name == seq!['.'] || name == seq!['.', '.']
}

/// What precedes the solver id in a per-solver report path. The path's
/// last `/`-separated component (trailing `/` ignored) is its file name;
/// the id goes between the file's stem and its extension. A path without a
/// file name gets a new file `coffee-sim-profile-<id>` inside it.
pub open spec fn path_head(base: Seq<char>) -> Seq<char> {
    let t = strip_trailing_slashes(base);
    let k = after_last(t, '/') as int;
    let name = t.subrange(k, t.len() as int);
    if names_no_file(name) {
        let sep = if t.len() > 0 && t.last() != '/' {
            "/"@
        } else {
            Seq::<char>::empty()
        };
        t + sep + "coffee-sim-profile-"@
    } else {
        t.subrange(0, k) + stem_and_extension(name).0 + "-"@
    }
}

/// What follows the solver id in a per-solver report path: the file's
/// extension, if it has one.
pub open spec fn path_tail(base: Seq<char>) -> Seq<char> {
    let t = strip_trailing_slashes(base);
    let k = after_last(t, '/') as int;
    let name = t.subrange(k, t.len() as int);
    if names_no_file(name) {
        Seq::empty()
    } else {
        match stem_and_extension(name).1 {
            Some(e) => "."@ + e,
            None => Seq::empty(),
        }
    }
}

/// Where a solver writes its report: a single-solver run writes to the
/// base path itself; otherwise the solver's id is worked into the file
/// name.
pub open spec fn output_path_spec(base: Seq<char>, solver: SolverSpec, multiple: bool) -> Seq<char> {
    if !multiple {
        base
    } else {
        path_head(base) + solver_spec_id(solver) + path_tail(base)
    }
}

proof fn lemma_after_last_bound(s: Seq<char>, c: char)
    ensures
        after_last(s, c) <= s.len(),
        after_last(s, c) > 0 ==> s[after_last(s, c) - 1] == c,
    decreases s.len(),
{
    if s.len() > 0 && s.last() != c {
        lemma_after_last_bound(s.drop_last(), c);
    }
}

fn after_last_index(v: &Vec<char>, c: char) -> (r: usize)
    ensures
        r == after_last(v@, c),
{
    let mut i: usize = v.len();
    assert(v@.subrange(0, i as int) =~= v@);
    while i > 0 && v[i - 1] != c
        invariant
            i <= v.len(),
            after_last(v@.subrange(0, i as int), c) == after_last(v@, c),
        decreases i,
    {
        assert(v@.subrange(0, i as int).drop_last() =~= v@.subrange(0, i - 1));
        i = i - 1;
    }
    if i == 0 {
        assert(v@.subrange(0, 0) =~= Seq::<char>::empty());
    }
    i
}

fn strip_trailing_slashes_len(v: &Vec<char>) -> (r: usize)
    ensures
        r <= v.len(),
        v@.subrange(0, r as int) == strip_trailing_slashes(v@),
{
    let mut n: usize = v.len();
    assert(v@.subrange(0, n as int) =~= v@);
    while n > 1 && v[n - 1] == '/'
        invariant
            n <= v.len(),
            strip_trailing_slashes(v@.subrange(0, n as int)) == strip_trailing_slashes(v@),
        decreases n,
    {
        assert(v@.subrange(0, n as int).drop_last() =~= v@.subrange(0, n - 1));
        n = n - 1;
    }
    n
}

/// The report path of `solver` in a run with base path `base`.
pub fn output_path_for_solver(base: &str, solver: SolverSpec, multiple: bool) -> (r: String)
    ensures
        r@ == output_path_spec(base@, solver, multiple),
{
    let b = str_chars(base);
    if !multiple {
        return chars_to_string(&b);
    }
    let n = strip_trailing_slashes_len(&b);
    let t = crate::text::sub_chars(&b, 0, n);
    let k = after_last_index(&t, '/');
    proof {
        lemma_after_last_bound(t@, '/');
    }
    let name = crate::text::sub_chars(&t, k, t.len());
    let no_file = name.len() == 0 || (name.len() == 1 && name[0] == '.') || (name.len() == 2
        && name[0] == '.' && name[1] == '.');
    proof {
        if no_file {
            if name.len() == 1 {
                assert(name@ =~= seq!['.']);
            }
            if name.len() == 2 {
                assert(name@ =~= seq!['.', '.']);
            }
        } else {
            assert(name@ != seq!['.']) by {
                if name@ == seq!['.'] {
                    assert(name@[0] == '.');
                }
            }
            assert(name@ != seq!['.', '.']) by {
                if name@ == seq!['.', '.'] {
                    assert(name@[0] == '.' && name@[1] == '.');
                }
            }
        }
    }
    let id = solver.id();
    let mut out: Vec<char>;
    if no_file {
        out = crate::text::sub_chars(&t, 0, t.len());
        if t.len() > 0 && t[t.len() - 1] != '/' {
            push_str(&mut out, "/");
        }
        push_str(&mut out, "coffee-sim-profile-");
        push_str(&mut out, id.as_str());
        assert(t@.subrange(0, t.len() as int) =~= t@);
        assert(out@ =~= output_path_spec(base@, solver, multiple));
        return chars_to_string(&out);
    }
    out = crate::text::sub_chars(&t, 0, k);
    let d = after_last_index(&name, '.');
    proof {
        lemma_after_last_bound(name@, '.');
    }
    if d <= 1 {
        crate::text::push_chars(&mut out, &name);
        push_str(&mut out, "-");
        push_str(&mut out, id.as_str());
        assert(out@ =~= output_path_spec(base@, solver, multiple));
        chars_to_string(&out)
    } else {
        let stem = crate::text::sub_chars(&name, 0, d - 1);
        let ext = crate::text::sub_chars(&name, d, name.len());
        crate::text::push_chars(&mut out, &stem);
        push_str(&mut out, "-");
        push_str(&mut out, id.as_str());
        push_str(&mut out, ".");
        crate::text::push_chars(&mut out, &ext);
        assert(out@ =~= output_path_spec(base@, solver, multiple));
        chars_to_string(&out)
    }
}

/// Records the requested solver ids of the run, the current solver's id,
/// its one-based position among them (1 when absent), their number and
/// whether the run writes one output per solver.
pub fn solver_run_metadata(run: &ProfilerRunConfig, solver: SolverSpec) -> (r: SolverRunMetadata)
    ensures
        strings_view(r.requested@) == strings_view(run.solver_ids@),
        r.current@ == solver_spec_id(solver),
        r.ordinal == ordinal_of(strings_view(run.solver_ids@), solver_spec_id(solver)),
        r.count == run.solver_ids.len(),
        r.multiple_outputs == run.multiple_outputs,
{
    let current = solver.id();
    let ghost ids = strings_view(run.solver_ids@);
    let ghost cur = solver_spec_id(solver);
    let mut requested: Vec<String> = Vec::new();
    let mut ordinal: usize = 1;
    let mut found = false;
    let mut i: usize = 0;
    while i < run.solver_ids.len()
        invariant
            i <= run.solver_ids.len(),
            ids == strings_view(run.solver_ids@),
            current@ == cur,
            strings_view(requested@) == ids.subrange(0, i as int),
            found == ids.subrange(0, i as int).contains(cur),
            ordinal == ordinal_of(ids.subrange(0, i as int), cur),
            ordinal <= i + 1,
        decreases run.solver_ids.len() - i,
    {
        let ghost pre = ids.subrange(0, i as int);
        let ghost next = ids.subrange(0, i + 1);
        assert(next.drop_last() =~= pre);
        assert(next.last() == run.solver_ids@[i as int]@);
        let same = run.solver_ids[i] == current;
        if same && !found {
            ordinal = i + 1;
        }
        proof {
            if !found && !same {
                assert(!next.contains(cur)) by {
                    if next.contains(cur) {
                        let k = choose|k: int| 0 <= k < next.len() && next[k] == cur;
                        if k < i {
                            assert(pre[k] == next[k]);
                        }
                    }
                }
            }
            if same {
                assert(next[i as int] == cur);
            }
            if found {
                let k = choose|k: int| 0 <= k < pre.len() && pre[k] == cur;
                assert(next[k] == pre[k]);
            }
        }
        found = found || same;
        let ghost before = requested@;
        requested.push(run.solver_ids[i].clone());
        assert(strings_view(requested@) =~= strings_view(before).push(run.solver_ids@[i as int]@));
        i = i + 1;
    }
    assert(ids.subrange(0, run.solver_ids.len() as int) =~= ids);
    SolverRunMetadata {
        requested,
        current,
        ordinal,
        count: run.solver_ids.len(),
        multiple_outputs: run.multiple_outputs,
    }
}


// ---------------------------------------------------------------------------
// Laws
// ---------------------------------------------------------------------------

/// The display name of every solver parses back to that solver.
pub proof fn lemma_solver_spec_display_round_trip(s: SolverSpec)
    ensures
        parse_solver_spec_spec(solver_spec_display(s)) == Ok::<SolverSpec, Seq<char>>(s),
{
    reveal_strlit("mpm:");
    reveal_strlit("mpm");
    reveal_strlit("mpm-3d");
    reveal_strlit("dfsph");
    reveal_strlit("dfsph-water");
    reveal_strlit("xpbd:");
    reveal_strlit("xpbd");
    reveal_strlit("gpu");
    reveal_strlit("rbgs");
    reveal_strlit("jacobi-cg");
    reveal_strlit("sparse-cg");
    match s {
        SolverSpec::Mpm { pressure } => {
            let a = "mpm"@;
            let b = solver_kind_id(pressure);
            let t = solver_spec_display(s);
            assert(t =~= a + seq![':'] + b);
            lemma_trim_plain(t);
            lemma_split_once_at(a, ':', b);
            lemma_trim_plain(a);
            lemma_lower_plain(a);
            crate::pressure::lemma_solver_kind_id_round_trip(pressure);
        },
        SolverSpec::Dfsph => {
            let t = "dfsph"@;
            lemma_trim_plain(t);
            lemma_split_once_none(t, ':');
            lemma_lower_plain(t);
        },
        SolverSpec::Xpbd { solver } => {
            let a = "xpbd"@;
            let b = xpbd_kind_id(solver);
            let t = solver_spec_display(s);
            assert(t =~= a + seq![':'] + b);
            lemma_trim_plain(t);
            lemma_split_once_at(a, ':', b);
            lemma_trim_plain(a);
            lemma_lower_plain(a);
            lemma_trim_plain(b);
            lemma_lower_plain(b);
        },
    }
}

/// Distinct solvers have distinct ids, so their reports never share a file.
pub proof fn lemma_solver_spec_ids_distinct(a: SolverSpec, b: SolverSpec)
    ensures
        solver_spec_id(a) == solver_spec_id(b) ==> a == b,
{
    reveal_strlit("mpm-");
    reveal_strlit("dfsph");
    reveal_strlit("xpbd-");
    reveal_strlit("gpu");
    reveal_strlit("rbgs");
    reveal_strlit("jacobi-cg");
    reveal_strlit("sparse-cg");
    if solver_spec_id(a) == solver_spec_id(b) {
        let ia = solver_spec_id(a);
        let ib = solver_spec_id(b);
        assert(ia.len() == ib.len());
        assert(ia[0] == ib[0]);
        match (a, b) {
            (SolverSpec::Mpm { pressure: p }, SolverSpec::Mpm { pressure: q }) => {
                assert(ia[4] == ib[4]);
            },
            _ => {},
        }
    }
}

/// Every scene id parses back to its scene.
pub proof fn lemma_profile_scene_id_round_trip(s: ProfileScene)
    ensures
        parse_profile_scene_spec(profile_scene_id(s)) == Ok::<ProfileScene, Seq<char>>(s),
{
    reveal_strlit("center_pour");
    reveal_strlit("center-pour");
    reveal_strlit("free_stream");
    reveal_strlit("free-stream");
    reveal_strlit("water_block");
    reveal_strlit("water-block");
    let t = profile_scene_id(s);
    lemma_trim_plain(t);
    lemma_lower_plain(t);
}

/// `all` selects every runnable solver, in order.
pub proof fn lemma_all_selects_runnable_solvers()
    ensures
        parse_solver_specs_spec("all"@) == Ok::<Seq<SolverSpec>, Seq<char>>(runnable_specs_spec()),
{
    reveal_strlit("all");
    lemma_trim_plain("all"@);
}

/// Whatever solver runs, it keeps the scene's grid, substeps, particle
/// budget and red/black pairs; only an MPM solver with a CG budget of the
/// run's own changes the scene's CG iterations.
pub proof fn lemma_solvers_share_scene_settings(
    solver: SolverSpec,
    operator: PressureOperatorKind,
    cg_iterations: Option<u32>,
    base: MpmSettings,
)
    ensures
        ({
            let s = settings_for_solver_spec(solver, operator, cg_iterations, base);
            &&& s.grid_dims == base.grid_dims
            &&& s.substeps == base.substeps
            &&& s.max_particles == base.max_particles
            &&& s.pressure_rbgs_pairs == base.pressure_rbgs_pairs
            &&& s.has_filter == base.has_filter
            &&& s.bed_particles == base.bed_particles
            &&& (!(solver is Mpm) || cg_iterations is None) ==> s.pressure_cg_iterations
                == base.pressure_cg_iterations
        }),
{
}

/// A run with several solvers writes each solver's report to its own path;
/// a run with one solver writes to the base path.
pub proof fn lemma_output_paths_distinct(base: Seq<char>, a: SolverSpec, b: SolverSpec)
    ensures
        output_path_spec(base, a, false) == base,
        output_path_spec(base, a, true) == output_path_spec(base, b, true) ==> a == b,
{
    if output_path_spec(base, a, true) == output_path_spec(base, b, true) {
        let head = path_head(base);
        let tail = path_tail(base);
        let pa = output_path_spec(base, a, true);
        let pb = output_path_spec(base, b, true);
        let ia = solver_spec_id(a);
        let ib = solver_spec_id(b);
        assert(pa.len() == head.len() + ia.len() + tail.len());
        assert(pb.len() == head.len() + ib.len() + tail.len());
        assert(ia.len() == ib.len());
        assert(ia =~= pa.subrange(head.len() as int, head.len() + ia.len() as int));
        assert(ib =~= pb.subrange(head.len() as int, head.len() + ib.len() as int));
        lemma_solver_spec_ids_distinct(a, b);
    }
}


// ---------------------------------------------------------------------------
// Timestamp budget of an MPM substep
// ---------------------------------------------------------------------------

/// Timed compute passes of an instrumented substep: every operation but a
/// buffer copy runs in a timed pass of its own.
pub open spec fn timed_pass_count(ops: Seq<MpmScheduleOp>) -> nat
    decreases ops.len(),
{
    if ops.len() == 0 {
        0
    } else {
        timed_pass_count(ops.drop_last()) + if ops.last() is CopyBufferToBuffer {
            0nat
        } else {
            1nat
        }
    }
}

proof fn lemma_timed_pass_count_append(a: Seq<MpmScheduleOp>, b: Seq<MpmScheduleOp>)
    ensures
        timed_pass_count(a + b) == timed_pass_count(a) + timed_pass_count(b),
    decreases b.len(),
{
    if b.len() == 0 {
        assert(a + b =~= a);
    } else {
        assert((a + b).drop_last() =~= a + b.drop_last());
        assert((a + b).last() == b.last());
        lemma_timed_pass_count_append(a, b.drop_last());
    }
}

proof fn lemma_timed_pass_count_no_copies(s: Seq<MpmScheduleOp>)
    requires
        forall|i: int| 0 <= i < s.len() ==> !(#[trigger] s[i] is CopyBufferToBuffer),
    ensures
        timed_pass_count(s) == s.len(),
    decreases s.len(),
{
    if s.len() > 0 {
        let t = s.drop_last();
        assert forall|i: int| 0 <= i < t.len() implies !(#[trigger] t[i] is CopyBufferToBuffer) by {
            assert(t[i] == s[i]);
        }
        lemma_timed_pass_count_no_copies(t);
    }
}

proof fn lemma_timed_pass_count_repeat(n: nat, block: Seq<MpmScheduleOp>)
    ensures
        timed_pass_count(repeat(n, block)) == n * timed_pass_count(block),
    decreases n,
{
    if n == 0 {
        assert(timed_pass_count(repeat(0, block)) == 0);
        assert(n * timed_pass_count(block) == 0) by (nonlinear_arith)
            requires
                n == 0,
        ;
    } else {
        lemma_timed_pass_count_repeat((n - 1) as nat, block);
        assert(repeat(n, block) == repeat((n - 1) as nat, block) + block);
        lemma_timed_pass_count_append(repeat((n - 1) as nat, block), block);
        assert(n * timed_pass_count(block) == (n - 1) * timed_pass_count(block) + timed_pass_count(
            block,
        )) by (nonlinear_arith);
    }
}

/// The timed passes of one substep other than the pressure solve: at most
/// seventeen, whatever the dispatch sizes.
proof fn lemma_fixed_passes(d: MpmDispatchSizes, family: PressureFamily)
    ensures
        timed_pass_count(schedule_head(d, family)) + timed_pass_count(schedule_middle(d.cell_wg, family))
            + timed_pass_count(schedule_tail(d)) <= COMMON_TIMED_SCOPES_PER_SUBSTEP + 4,
{
    let head = schedule_head(d, family);
    let middle = schedule_middle(d.cell_wg, family);
    let tail = schedule_tail(d);
    assert forall|i: int| 0 <= i < head.len() implies !(#[trigger] head[i] is CopyBufferToBuffer) by {
    }
    assert forall|i: int| 0 <= i < middle.len() implies !(#[trigger] middle[i] is CopyBufferToBuffer) by {
    }
    assert forall|i: int| 0 <= i < tail.len() implies !(#[trigger] tail[i] is CopyBufferToBuffer) by {
    }
    lemma_timed_pass_count_no_copies(head);
    lemma_timed_pass_count_no_copies(middle);
    lemma_timed_pass_count_no_copies(tail);
}

/// The timed passes of a pressure solve fit the scopes the budget counts
/// for it, unless it is CG on the staggered operator.
proof fn lemma_solve_passes_fit_scopes(ctx: PressureContext)
    requires
        !(ctx.kind == PressureSolverKind::JacobiCg && ctx.operator
            == PressureOperatorKind::Staggered),
    ensures
        timed_pass_count(pressure_solve_ops_spec(ctx)) <= timestamp_scopes_spec(ctx) - 3,
{
    let solve = pressure_solve_ops_spec(ctx);
    let n = ctx.cg_iterations as nat;
    if ctx.kind == PressureSolverKind::SparseCg {
        let cell = ctx.cell_wg;
        let indirect = MpmDispatch::IndirectPressure { offset: 0 };
        let prefix = seq![
            solve_pass(PipelineId::CgInit, MpmDispatch::Direct(cell)),
            solve_pass(PipelineId::CgActiveFinalizeDispatch, MpmDispatch::Direct(1)),
            solve_pass(PipelineId::CgWarmstart, MpmDispatch::Direct(cell)),
            MpmScheduleOp::CopyBufferToBuffer {
                src: BufferId::Metrics,
                src_offset: (METRIC_PRESSURE_ACTIVE_WORKGROUPS_X_IDX * 4) as u64,
                dst: BufferId::PressureDispatchArgs,
                dst_offset: 0,
                size: 12,
            },
        ];
        let block = seq![
            solve_pass(PipelineId::CgSparseMatvec, indirect),
            solve_pass(PipelineId::CgSparseApplyAlpha, indirect),
            solve_pass(PipelineId::CgSparseUpdateDir, indirect),
            solve_pass(PipelineId::CgFinishIteration, MpmDispatch::Direct(1)),
        ];
        assert(solve == prefix + repeat(n, block));
        reveal_with_fuel(timed_pass_count, 5);
        assert(timed_pass_count(prefix) == 3);
        assert(timed_pass_count(block) == 4);
        lemma_timed_pass_count_repeat(n, block);
        lemma_timed_pass_count_append(prefix, repeat(n, block));
    } else {
        assert(solve.len() == 1);
        reveal_with_fuel(timed_pass_count, 2);
    }
}

/// The MPM timestamp budget covers every timed pass of a substep, for every
/// solver except CG on the staggered operator, whose step-by-step schedule
/// the budget does not count.
pub proof fn lemma_capacity_covers_substep(
    settings: MpmSettings,
    last_rbgs_pairs: u32,
    d: MpmDispatchSizes,
    ctx: PressureContext,
)
    requires
        ctx.kind == settings.pressure_solver,
        ctx.operator == settings.pressure_operator,
        ctx.cg_iterations == settings.pressure_cg_iterations,
        !(ctx.kind == PressureSolverKind::JacobiCg && ctx.operator
            == PressureOperatorKind::Staggered),
    ensures
        2 * timed_pass_count(substep_schedule_spec(d, ctx)) <= mpm_capacity_spec(
            settings,
            last_rbgs_pairs,
        ),
{
    let family = pressure_family_spec(ctx);
    let head = schedule_head(d, family);
    let solve = pressure_solve_ops_spec(ctx);
    let middle = schedule_middle(d.cell_wg, family);
    let tail = schedule_tail(d);
    lemma_timed_pass_count_append(head, solve);
    lemma_timed_pass_count_append(head + solve, middle);
    lemma_timed_pass_count_append(head + solve + middle, tail);
    lemma_fixed_passes(d, family);
    lemma_solve_passes_fit_scopes(ctx);
    assert(timestamp_scopes_spec(ctx) == timestamp_scopes_spec(
        profiled_pressure_context(settings, last_rbgs_pairs),
    ));
}

} // verus!
