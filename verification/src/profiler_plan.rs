//! What a profiling run will do, resolved from its command-line options and
//! its `COFFEE_SIM_PROFILE_*` environment: the scene, the solvers, the frame
//! counts and the report paths, and the dry-run description of that plan.
use vstd::prelude::*;

use crate::pressure::{
    operator_kind_id, parse_operator_kind_spec, PressureOperatorKind,
};
use crate::profiler::{
    dry_run_solver_metadata, is_dry_run_metadata, output_path_for_solver, profile_scene_id,
    settings_for_solver, ProfilerRunConfig, SolverMetadata, output_path_spec, parse_profile_scene_spec, parse_solver_specs_spec, profile_scene_settings,
    settings_for_solver_spec, solver_spec_display, solver_spec_id, specs_result_view,
    supports_operator_spec, try_parse_solver_specs, ProfileScene, SolverSpec,
    DEFAULT_CALIBRATION_FRAMES, DEFAULT_MEASURED_FRAMES, DEFAULT_WARMUP_FRAMES,
};
use crate::profiler_cli::{env_u32_spec, env_u32_value, opt_str, or_else, CliArgsModel, ProfilerCliArgs};
use crate::scene::MpmSettings;
use crate::text::{
    chars_to_string, decimal, join, parse_u32_spec, push_decimal, push_joined, push_str, str_chars,
};

verus! {

/// Report path used when neither the command line nor the environment
/// names one.
pub open spec fn default_output_path() -> Seq<char> {
    "target/coffee-sim-profile.json"@
}

/// The `COFFEE_SIM_PROFILE_*` variables a run reads, as found in the
/// environment.
#[derive(Debug)]
pub struct ProfilerEnv {
    /// `COFFEE_SIM_PROFILE_SCENE`
    pub scene: Option<String>,
    /// `COFFEE_SIM_PROFILE_PRESSURE_OPERATOR`
    pub pressure_operator: Option<String>,
    /// `COFFEE_SIM_PROFILE_SOLVERS`
    pub solvers: Option<String>,
    /// `COFFEE_SIM_PROFILE_SOLVER`
    pub solver: Option<String>,
    /// `COFFEE_SIM_PROFILE_WARMUP`
    pub warmup: Option<String>,
    /// `COFFEE_SIM_PROFILE_FRAMES`
    pub frames: Option<String>,
    /// `COFFEE_SIM_PROFILE_CAL`
    pub calibration: Option<String>,
    /// `COFFEE_SIM_PROFILE_CG_ITERATIONS`
    pub cg_iterations: Option<String>,
    /// `COFFEE_SIM_PROFILE_OUT`
    pub output: Option<String>,
}

pub struct EnvModel {
    pub scene: Option<Seq<char>>,
    pub pressure_operator: Option<Seq<char>>,
    pub solvers: Option<Seq<char>>,
    pub solver: Option<Seq<char>>,
    pub warmup: Option<Seq<char>>,
    pub frames: Option<Seq<char>>,
    pub calibration: Option<Seq<char>>,
    pub cg_iterations: Option<Seq<char>>,
    pub output: Option<Seq<char>>,
}

impl View for ProfilerEnv {
    type V = EnvModel;

    open spec fn view(&self) -> EnvModel {
        EnvModel {
            scene: opt_str(self.scene),
            pressure_operator: opt_str(self.pressure_operator),
            solvers: opt_str(self.solvers),
            solver: opt_str(self.solver),
            warmup: opt_str(self.warmup),
            frames: opt_str(self.frames),
            calibration: opt_str(self.calibration),
            cg_iterations: opt_str(self.cg_iterations),
            output: opt_str(self.output),
        }
    }
}

pub open spec fn empty_env() -> EnvModel {
    EnvModel {
        scene: None,
        pressure_operator: None,
        solvers: None,
        solver: None,
        warmup: None,
        frames: None,
        calibration: None,
        cg_iterations: None,
        output: None,
    }
}

impl Default for ProfilerEnv {
    fn default() -> (r: Self)
        ensures
            r@ == empty_env(),
    {
        ProfilerEnv {
            scene: None,
            pressure_operator: None,
            solvers: None,
            solver: None,
            warmup: None,
            frames: None,
            calibration: None,
            cg_iterations: None,
            output: None,
        }
    }
}

/// The solvers a run profiles: `--solvers`, else `--solver`, else
/// `COFFEE_SIM_PROFILE_SOLVERS`, else `COFFEE_SIM_PROFILE_SOLVER`, else
/// `rbgs`.
pub open spec fn solver_selection_spec(
    cli: CliArgsModel,
    solvers_env: Option<Seq<char>>,
    solver_env: Option<Seq<char>>,
) -> Result<Seq<SolverSpec>, Seq<char>> {
    match cli.solvers {
        Some(v) => parse_solver_specs_spec(v),
        None => match cli.solver {
            Some(v) => parse_solver_specs_spec(v),
            None => match solvers_env {
                Some(v) => parse_solver_specs_spec(v),
                None => match solver_env {
                    Some(v) => parse_solver_specs_spec(v),
                    None => parse_solver_specs_spec("rbgs"@),
                },
            },
        },
    }
}

/// The report path: `--out`, else `COFFEE_SIM_PROFILE_OUT`, else the default.
pub open spec fn output_path_choice(cli: CliArgsModel, output_env: Option<Seq<char>>) -> Seq<char> {
    match cli.output {
        Some(p) => p,
        None => match output_env {
            Some(p) => p,
            None => default_output_path(),
        },
    }
}

/// The first solver, in order, that cannot run with `op`.
pub open spec fn first_unsupported(solvers: Seq<SolverSpec>, op: PressureOperatorKind) -> Option<SolverSpec>
    decreases solvers.len(),
{
    if solvers.len() == 0 {
        None
    } else if !supports_operator_spec(solvers[0], op) {
        Some(solvers[0])
    } else {
        first_unsupported(solvers.subrange(1, solvers.len() as int), op)
    }
}

pub open spec fn unsupported_message(s: SolverSpec, op: PressureOperatorKind) -> Seq<char> {
    "solver '"@ + solver_spec_display(s) + "' does not support pressure_operator='"@
        + operator_kind_id(op) + "'; use mpm:jacobi-cg for the staggered operator"@
}

/// What a run resolved to.
pub struct SelectionModel {
    pub scene: ProfileScene,
    pub solvers: Seq<SolverSpec>,
    pub pressure_operator: PressureOperatorKind,
    pub solver_ids: Seq<Seq<char>>,
    pub warmup: u32,
    pub measured: u32,
    pub calibration: u32,
    pub cg_iterations: Option<u32>,
    pub base_output_path: Seq<char>,
    pub multiple_outputs: bool,
}

pub open spec fn unwrap_or_u32(o: Option<u32>, d: u32) -> u32 {
    match o {
        Some(n) => n,
        None => d,
    }
}

pub open spec fn ids_of(solvers: Seq<SolverSpec>) -> Seq<Seq<char>> {
    solvers.map_values(|s: SolverSpec| solver_spec_id(s))
}

/// The plan of a run. Each setting comes from the command line, else from
/// its environment variable (counts only when they are positive), else from
/// its default; the scene, the solvers and the pressure operator must parse
/// and every solver must support the operator.
pub open spec fn selection_spec(cli: CliArgsModel, env: EnvModel) -> Result<SelectionModel, Seq<char>> {
    let scene_text = match or_else(cli.scene, env.scene) {
        Some(t) => t,
        None => "center_pour"@,
    };
    match parse_profile_scene_spec(scene_text) {
        Err(e) => Err(e),
        Ok(scene) => match solver_selection_spec(cli, env.solvers, env.solver) {
            Err(e) => Err(e),
            Ok(solvers) => {
                let op_text = match or_else(cli.pressure_operator, env.pressure_operator) {
                    Some(t) => t,
                    None => "collocated"@,
                };
                match parse_operator_kind_spec(op_text) {
                    Err(e) => Err(e),
                    Ok(op) => match first_unsupported(solvers, op) {
                        Some(s) => Err(unsupported_message(s, op)),
                        None => Ok(
                            SelectionModel {
                                scene,
                                solvers,
                                pressure_operator: op,
                                solver_ids: ids_of(solvers),
                                warmup: unwrap_or_u32(
                                    or_else(cli.warmup, env_u32_spec(env.warmup)),
                                    DEFAULT_WARMUP_FRAMES,
                                ),
                                measured: unwrap_or_u32(
                                    or_else(cli.measured, env_u32_spec(env.frames)),
                                    DEFAULT_MEASURED_FRAMES,
                                ),
                                calibration: unwrap_or_u32(
                                    or_else(cli.calibration, env_u32_spec(env.calibration)),
                                    DEFAULT_CALIBRATION_FRAMES,
                                ),
                                cg_iterations: or_else(
                                    cli.cg_iterations,
                                    env_u32_spec(env.cg_iterations),
                                ),
                                base_output_path: output_path_choice(cli, env.output),
                                multiple_outputs: solvers.len() > 1,
                            },
                        ),
                    },
                }
            },
        },
    }
}

/// The resolved plan of a profiling run.
pub struct ProfileSelection {
    pub scene: ProfileScene,
    pub solvers: Vec<SolverSpec>,
    pub pressure_operator: PressureOperatorKind,
    pub solver_ids: Vec<String>,
    pub warmup: u32,
    pub measured: u32,
    pub calibration: u32,
    pub cg_iterations: Option<u32>,
    pub base_output_path: String,
    pub multiple_outputs: bool,
}

impl View for ProfileSelection {
    type V = SelectionModel;

    open spec fn view(&self) -> SelectionModel {
        SelectionModel {
            scene: self.scene,
            solvers: self.solvers@,
            pressure_operator: self.pressure_operator,
            solver_ids: self.solver_ids@.map_values(|s: String| s@),
            warmup: self.warmup,
            measured: self.measured,
            calibration: self.calibration,
            cg_iterations: self.cg_iterations,
            base_output_path: self.base_output_path@,
            multiple_outputs: self.multiple_outputs,
        }
    }
}

pub open spec fn selection_result_view(r: Result<ProfileSelection, String>) -> Result<SelectionModel, Seq<char>> {
    match r {
        Ok(s) => Ok(s@),
        Err(e) => Err(e@),
    }
}

fn clone_opt(o: &Option<String>) -> (r: Option<String>)
    ensures
        opt_str(r) == opt_str(*o),
{
    match o {
        Some(s) => Some(s.clone()),
        None => None,
    }
}

/// The solvers a run profiles, or why the selection is invalid.
pub fn try_profile_solver_specs_with_env(
    cli: &ProfilerCliArgs,
    solvers_env: Option<String>,
    solver_env: Option<String>,
) -> (r: Result<Vec<SolverSpec>, String>)
    ensures
        specs_result_view(r) == solver_selection_spec(cli@, opt_str(solvers_env), opt_str(solver_env)),
{
    match &cli.solvers {
        Some(v) => {
            return try_parse_solver_specs(v.as_str());
        },
        None => {},
    }
    match &cli.solver {
        Some(v) => {
            return try_parse_solver_specs(v.as_str());
        },
        None => {},
    }
    match solvers_env {
        Some(v) => {
            return try_parse_solver_specs(v.as_str());
        },
        None => {},
    }
    match solver_env {
        Some(v) => try_parse_solver_specs(v.as_str()),
        None => try_parse_solver_specs("rbgs"),
    }
}

/// The solvers of a run whose selection is valid.
pub fn profile_solver_specs_with_env(
    cli: &ProfilerCliArgs,
    solvers_env: Option<String>,
    solver_env: Option<String>,
) -> (r: Vec<SolverSpec>)
    requires
        solver_selection_spec(cli@, opt_str(solvers_env), opt_str(solver_env)) is Ok,
    ensures
        solver_selection_spec(cli@, opt_str(solvers_env), opt_str(solver_env)) == Ok::<
            Seq<SolverSpec>,
            Seq<char>,
        >(r@),
{
    match try_profile_solver_specs_with_env(cli, solvers_env, solver_env) {
        Ok(v) => v,
        Err(_) => {
            assert(false);
            Vec::new()
        },
    }
}

/// The base report path of a run.
pub fn output_path_with_env(cli: &ProfilerCliArgs, output_env: Option<String>) -> (r: String)
    ensures
        r@ == output_path_choice(cli@, opt_str(output_env)),
{
    match &cli.output {
        Some(p) => p.clone(),
        None => match output_env {
            Some(p) => p,
            None => chars_to_string(&str_chars("target/coffee-sim-profile.json")),
        },
    }
}


fn text_or(o: &Option<String>, fallback: &Option<String>, default: &str) -> (r: String)
    ensures
        r@ == match or_else(opt_str(*o), opt_str(*fallback)) {
            Some(t) => t,
            None => default@,
        },
{
    match o {
        Some(s) => s.clone(),
        None => match fallback {
            Some(s) => s.clone(),
            None => chars_to_string(&str_chars(default)),
        },
    }
}

fn count_or(o: Option<u32>, env: &Option<String>, default: u32) -> (r: u32)
    ensures
        r == unwrap_or_u32(or_else(o, env_u32_spec(opt_str(*env))), default),
{
    match o {
        Some(n) => n,
        None => match env_u32_value(clone_opt(env)) {
            Some(n) => n,
            None => default,
        },
    }
}

/// The refusal for the first solver of `solvers` that cannot run with `op`,
/// if there is one.
fn unsupported_solver_message(solvers: &Vec<SolverSpec>, op: PressureOperatorKind) -> (r: Option<String>)
    ensures
        match first_unsupported(solvers@, op) {
            Some(s) => r matches Some(m) && m@ == unsupported_message(s, op),
            None => r is None,
        },
{
    let n = solvers.len();
    let mut i: usize = 0;
    assert(solvers@.subrange(0, n as int) =~= solvers@);
    while i < n
        invariant
            i <= n,
            n == solvers.len(),
            first_unsupported(solvers@, op) == first_unsupported(
                solvers@.subrange(i as int, n as int),
                op,
            ),
        decreases n - i,
    {
        let ghost rest = solvers@.subrange(i as int, n as int);
        assert(rest[0] == solvers@[i as int]);
        assert(rest.subrange(1, rest.len() as int) =~= solvers@.subrange(i + 1, n as int));
        if !solvers[i].supports_pressure_operator(op) {
            let mut msg: Vec<char> = Vec::new();
            crate::text::push_str(&mut msg, "solver '");
            let name = solvers[i].display_name();
            crate::text::push_str(&mut msg, name.as_str());
            crate::text::push_str(&mut msg, "' does not support pressure_operator='");
            crate::text::push_str(&mut msg, op.id());
            crate::text::push_str(&mut msg, "'; use mpm:jacobi-cg for the staggered operator");
            assert(msg@ =~= unsupported_message(solvers@[i as int], op));
            return Some(chars_to_string(&msg));
        }
        i = i + 1;
    }
    assert(solvers@.subrange(n as int, n as int) =~= Seq::<SolverSpec>::empty());
    None
}

/// The ids of `solvers`, in order.
pub fn solver_ids(solvers: &Vec<SolverSpec>) -> (r: Vec<String>)
    ensures
        r@.map_values(|s: String| s@) == ids_of(solvers@),
{
    let mut ids: Vec<String> = Vec::new();
    let mut i: usize = 0;
    while i < solvers.len()
        invariant
            i <= solvers.len(),
            ids@.map_values(|s: String| s@) == ids_of(solvers@.subrange(0, i as int)),
        decreases solvers.len() - i,
    {
        let ghost before = ids@;
        let id = solvers[i].id();
        ids.push(id);
        assert(ids@.map_values(|s: String| s@) =~= before.map_values(|s: String| s@).push(
            solver_spec_id(solvers@[i as int]),
        ));
        assert(ids_of(solvers@.subrange(0, i + 1)) =~= ids_of(solvers@.subrange(0, i as int)).push(
            solver_spec_id(solvers@[i as int]),
        ));
        i = i + 1;
    }
    assert(solvers@.subrange(0, solvers.len() as int) =~= solvers@);
    ids
}

impl ProfileSelection {
    /// Resolves a run from its options and environment, or gives the reason
    /// it cannot run.
    pub fn try_from_cli_with_env(cli: &ProfilerCliArgs, env: &ProfilerEnv) -> (r: Result<Self, String>)
        ensures
            selection_result_view(r) == selection_spec(cli@, env@),
    {
        let scene_text = text_or(&cli.scene, &env.scene, "center_pour");
        let scene = match ProfileScene::parse_id(scene_text.as_str()) {
            Ok(s) => s,
            Err(e) => {
                return Err(e);
            },
        };
        let solvers = match try_profile_solver_specs_with_env(
            cli,
            clone_opt(&env.solvers),
            clone_opt(&env.solver),
        ) {
            Ok(v) => v,
            Err(e) => {
                return Err(e);
            },
        };
        let op_text = text_or(&cli.pressure_operator, &env.pressure_operator, "collocated");
        let op = match PressureOperatorKind::parse_id(op_text.as_str()) {
            Ok(o) => o,
            Err(e) => {
                return Err(e);
            },
        };
        match unsupported_solver_message(&solvers, op) {
            Some(msg) => {
                return Err(msg);
            },
            None => {},
        }
        let ids = solver_ids(&solvers);
        let warmup = count_or(cli.warmup, &env.warmup, DEFAULT_WARMUP_FRAMES);
        let measured = count_or(cli.measured, &env.frames, DEFAULT_MEASURED_FRAMES);
        let calibration = count_or(cli.calibration, &env.calibration, DEFAULT_CALIBRATION_FRAMES);
        let cg_iterations = match cli.cg_iterations {
            Some(n) => Some(n),
            None => env_u32_value(clone_opt(&env.cg_iterations)),
        };
        let base_output_path = output_path_with_env(cli, clone_opt(&env.output));
        let multiple_outputs = solvers.len() > 1;
        Ok(
            ProfileSelection {
                scene,
                solvers,
                pressure_operator: op,
                solver_ids: ids,
                warmup,
                measured,
                calibration,
                cg_iterations,
                base_output_path,
                multiple_outputs,
            },
        )
    }

    /// Resolves a run whose options and environment are valid.
    pub fn from_cli_with_env(cli: &ProfilerCliArgs, env: &ProfilerEnv) -> (r: Self)
        requires
            selection_spec(cli@, env@) is Ok,
        ensures
            selection_spec(cli@, env@) == Ok::<SelectionModel, Seq<char>>(r@),
    {
        match Self::try_from_cli_with_env(cli, env) {
            Ok(s) => s,
            Err(_) => {
                assert(false);
                ProfileSelection {
                    scene: ProfileScene::CenterPour,
                    solvers: Vec::new(),
                    pressure_operator: PressureOperatorKind::Collocated,
                    solver_ids: Vec::new(),
                    warmup: 0,
                    measured: 0,
                    calibration: 0,
                    cg_iterations: None,
                    base_output_path: String::new(),
                    multiple_outputs: false,
                }
            },
        }
    }
}


// ---------------------------------------------------------------------------
// Dry runs
// ---------------------------------------------------------------------------

pub open spec fn dec(n: u32) -> Seq<char> {
    decimal(n as nat)
}

/// The settings solver `s` runs with in the planned run.
pub open spec fn plan_settings(sel: SelectionModel, s: SolverSpec) -> MpmSettings {
    settings_for_solver_spec(
        s,
        sel.pressure_operator,
        sel.cg_iterations,
        profile_scene_settings(sel.scene),
    )
}

/// ` grid=XxYxZ` of a settings value.
pub open spec fn grid_text(st: MpmSettings) -> Seq<char> {
    " grid="@ + dec(st.grid_dims[0]) + "x"@ + dec(st.grid_dims[1]) + "x"@ + dec(st.grid_dims[2])
}

/// The counts a dry-run line shows after the grid.
pub open spec fn counts_text(st: MpmSettings) -> Seq<char> {
    " substeps="@ + dec(st.substeps) + " max_particles="@ + dec(st.max_particles)
        + " rbgs_pairs="@ + dec(st.pressure_rbgs_pairs) + " cg_iterations="@ + dec(
        st.pressure_cg_iterations,
    )
}

/// The dry-run line of one solver.
pub open spec fn summary_line(sel: SelectionModel, s: SolverSpec) -> Seq<char> {
    let st = plan_settings(sel, s);
    "- "@ + solver_spec_display(s) + " output="@ + output_path_spec(
        sel.base_output_path,
        s,
        sel.multiple_outputs,
    ) + grid_text(st) + counts_text(st) + "\n"@
}

pub open spec fn summary_lines(sel: SelectionModel, solvers: Seq<SolverSpec>) -> Seq<char>
    decreases solvers.len(),
{
    if solvers.len() == 0 {
        Seq::empty()
    } else {
        summary_lines(sel, solvers.drop_last()) + summary_line(sel, solvers.last())
    }
}

/// The head of the dry-run text: scene, solvers, operator, frame counts and
/// base path.
pub open spec fn summary_head(sel: SelectionModel) -> Seq<char> {
    "coffee-sim profiler dry run\n"@ + "scene: "@ + profile_scene_id(sel.scene) + "\n"@
        + "solvers: "@ + join(ids_of(sel.solvers), ", "@) + "\n"@ + "pressure_operator: "@
        + operator_kind_id(sel.pressure_operator) + "\n"@ + "frames: warmup="@ + dec(sel.warmup)
        + " measured="@ + dec(sel.measured) + " calibration="@ + dec(sel.calibration) + "\n"@
        + "base_output: "@ + sel.base_output_path + "\n"@
}

/// Each solver's dry-run line ends with the counts of the settings that
/// solver runs with, each after its own label: substeps, pool size,
/// red/black pairs and CG iterations, in decimal.
pub proof fn lemma_dry_run_line_shows_solver_counts(sel: SelectionModel, s: SolverSpec)
    ensures
        ({
            let st = plan_settings(sel, s);
            exists|prefix: Seq<char>|
                summary_line(sel, s) == prefix + " substeps="@ + decimal(st.substeps as nat)
                    + " max_particles="@ + decimal(st.max_particles as nat) + " rbgs_pairs="@
                    + decimal(st.pressure_rbgs_pairs as nat) + " cg_iterations="@ + decimal(
                    st.pressure_cg_iterations as nat,
                ) + "\n"@
        }),
{
    let st = plan_settings(sel, s);
    let prefix = "- "@ + solver_spec_display(s) + " output="@ + output_path_spec(
        sel.base_output_path,
        s,
        sel.multiple_outputs,
    ) + grid_text(st);
    assert(summary_line(sel, s) =~= prefix + " substeps="@ + decimal(st.substeps as nat)
        + " max_particles="@ + decimal(st.max_particles as nat) + " rbgs_pairs="@ + decimal(
        st.pressure_rbgs_pairs as nat,
    ) + " cg_iterations="@ + decimal(st.pressure_cg_iterations as nat) + "\n"@);
}

proof fn lemma_summary_lines_contain(sel: SelectionModel, solvers: Seq<SolverSpec>, j: int)
    requires
        0 <= j < solvers.len(),
    ensures
        exists|a: Seq<char>, b: Seq<char>|
            summary_lines(sel, solvers) == a + summary_line(sel, solvers[j]) + b,
    decreases solvers.len(),
{
    let init = solvers.drop_last();
    if j == solvers.len() - 1 {
        let a = summary_lines(sel, init);
        assert(summary_lines(sel, solvers) =~= a + summary_line(sel, solvers[j]) + Seq::<
            char,
        >::empty());
    } else {
        lemma_summary_lines_contain(sel, init, j);
        let (a, b) = choose|a: Seq<char>, b: Seq<char>|
            summary_lines(sel, init) == a + summary_line(sel, init[j]) + b;
        assert(init[j] == solvers[j]);
        let b2 = b + summary_line(sel, solvers.last());
        assert(summary_lines(sel, solvers) =~= a + summary_line(sel, solvers[j]) + b2);
    }
}

/// The dry-run text holds the line of every planned solver.
pub proof fn lemma_dry_run_lists_every_solver(sel: SelectionModel, j: int)
    requires
        0 <= j < sel.solvers.len(),
    ensures
        exists|a: Seq<char>, b: Seq<char>|
            dry_run_summary_spec(sel) == a + summary_line(sel, sel.solvers[j]) + b,
{
    lemma_summary_lines_contain(sel, sel.solvers, j);
    let (a, b) = choose|a: Seq<char>, b: Seq<char>|
        summary_lines(sel, sel.solvers) == a + summary_line(sel, sel.solvers[j]) + b;
    assert(dry_run_summary_spec(sel) =~= (summary_head(sel) + a) + summary_line(
        sel,
        sel.solvers[j],
    ) + b);
}

/// The dry-run text: the head, then one line per solver with its report
/// path and the settings it runs with.
pub open spec fn dry_run_summary_spec(sel: SelectionModel) -> Seq<char> {
    summary_head(sel) + summary_lines(sel, sel.solvers)
}

/// One solver of a dry-run plan.
pub struct DryRunSolverPlan {
    pub solver: String,
    pub metadata: SolverMetadata,
    pub output_path: String,
    pub grid_dims: [u32; 3],
    pub substeps: u32,
    pub max_particles: u32,
    pub pressure_rbgs_pairs: u32,
    pub pressure_cg_iterations: u32,
}

/// The machine-readable dry-run plan.
pub struct DryRunPlan {
    pub schema_version: u32,
    pub mode: String,
    pub scene: String,
    pub pressure_operator: String,
    pub warmup_frames: u32,
    pub measured_frames: u32,
    pub calibration_frames: u32,
    pub base_output_path: String,
    pub multiple_outputs: bool,
    pub solvers: Vec<DryRunSolverPlan>,
}

pub open spec fn is_solver_plan(p: DryRunSolverPlan, sel: SelectionModel, s: SolverSpec) -> bool {
    let st = plan_settings(sel, s);
    &&& p.solver@ == solver_spec_display(s)
    &&& is_dry_run_metadata(p.metadata, s, st)
    &&& p.output_path@ == output_path_spec(sel.base_output_path, s, sel.multiple_outputs)
    &&& p.grid_dims == st.grid_dims
    &&& p.substeps == st.substeps
    &&& p.max_particles == st.max_particles
    &&& p.pressure_rbgs_pairs == st.pressure_rbgs_pairs
    &&& p.pressure_cg_iterations == st.pressure_cg_iterations
}

/// The plan of `sel`: schema 1 in `dry_run` mode, the run's scene, operator,
/// frame counts and base path, and one entry per solver, in order.
pub open spec fn is_dry_run_plan(p: DryRunPlan, sel: SelectionModel) -> bool {
    &&& p.schema_version == 1
    &&& p.mode@ == "dry_run"@
    &&& p.scene@ == profile_scene_id(sel.scene)
    &&& p.pressure_operator@ == operator_kind_id(sel.pressure_operator)
    &&& p.warmup_frames == sel.warmup
    &&& p.measured_frames == sel.measured
    &&& p.calibration_frames == sel.calibration
    &&& p.base_output_path@ == sel.base_output_path
    &&& p.multiple_outputs == sel.multiple_outputs
    &&& p.solvers.len() == sel.solvers.len()
    &&& forall|i: int|
        0 <= i < sel.solvers.len() ==> is_solver_plan(#[trigger] p.solvers@[i], sel, sel.solvers[i])
}

fn push_u32(out: &mut Vec<char>, n: u32)
    ensures
        final(out)@ == old(out)@ + dec(n),
{
    push_decimal(out, n as u64);
}

fn push_grid(out: &mut Vec<char>, st: &MpmSettings)
    ensures
        final(out)@ == old(out)@ + grid_text(*st),
{
    let ghost start = out@;
    push_str(out, " grid=");
    push_u32(out, st.grid_dims[0]);
    let ghost a = out@;
    assert(a =~= start + (" grid="@ + dec(st.grid_dims[0])));
    push_str(out, "x");
    push_u32(out, st.grid_dims[1]);
    let ghost b = out@;
    assert(b =~= start + (" grid="@ + dec(st.grid_dims[0]) + "x"@ + dec(st.grid_dims[1])));
    push_str(out, "x");
    push_u32(out, st.grid_dims[2]);
    assert(out@ =~= start + grid_text(*st));
}

fn push_counts(out: &mut Vec<char>, st: &MpmSettings)
    ensures
        final(out)@ == old(out)@ + counts_text(*st),
{
    let ghost start = out@;
    push_str(out, " substeps=");
    push_u32(out, st.substeps);
    let ghost a = out@;
    assert(a =~= start + (" substeps="@ + dec(st.substeps)));
    push_str(out, " max_particles=");
    push_u32(out, st.max_particles);
    let ghost b = out@;
    assert(b =~= start + (" substeps="@ + dec(st.substeps) + " max_particles="@ + dec(
        st.max_particles,
    )));
    push_str(out, " rbgs_pairs=");
    push_u32(out, st.pressure_rbgs_pairs);
    let ghost c = out@;
    assert(c =~= start + (" substeps="@ + dec(st.substeps) + " max_particles="@ + dec(
        st.max_particles,
    ) + " rbgs_pairs="@ + dec(st.pressure_rbgs_pairs)));
    push_str(out, " cg_iterations=");
    push_u32(out, st.pressure_cg_iterations);
    assert(out@ =~= start + counts_text(*st));
}

fn ids_chars(solvers: &Vec<SolverSpec>) -> (r: Vec<Vec<char>>)
    ensures
        r.deep_view() == ids_of(solvers@),
{
    let mut out: Vec<Vec<char>> = Vec::new();
    let mut i: usize = 0;
    while i < solvers.len()
        invariant
            i <= solvers.len(),
            out.deep_view() == ids_of(solvers@.subrange(0, i as int)),
        decreases solvers.len() - i,
    {
        let ghost before = out.deep_view();
        let id = solvers[i].id();
        out.push(str_chars(id.as_str()));
        assert(out.deep_view() =~~= before.push(solver_spec_id(solvers@[i as int])));
        assert(ids_of(solvers@.subrange(0, i + 1)) =~= ids_of(solvers@.subrange(0, i as int)).push(
            solver_spec_id(solvers@[i as int]),
        ));
        i = i + 1;
    }
    assert(solvers@.subrange(0, solvers.len() as int) =~= solvers@);
    out
}

impl ProfileSelection {
    /// The configuration every solver of the run shares.
    pub fn run_config(&self) -> (r: ProfilerRunConfig)
        ensures
            r.scene == self.scene,
            r.warmup == self.warmup,
            r.measured == self.measured,
            r.calibration == self.calibration,
            r.cg_iterations == self.cg_iterations,
            r.pressure_operator == self.pressure_operator,
            r.solver_ids@.map_values(|s: String| s@) == ids_of(self.solvers@),
            r.base_output_path@ == self.base_output_path@,
            r.multiple_outputs == self.multiple_outputs,
    {
        ProfilerRunConfig {
            scene: self.scene,
            warmup: self.warmup,
            measured: self.measured,
            calibration: self.calibration,
            cg_iterations: self.cg_iterations,
            pressure_operator: self.pressure_operator,
            solver_ids: solver_ids(&self.solvers),
            base_output_path: &self.base_output_path,
            multiple_outputs: self.multiple_outputs,
        }
    }

    fn push_summary_line(&self, out: &mut Vec<char>, run: &ProfilerRunConfig, solver: SolverSpec)
        requires
            run.scene == self.scene,
            run.cg_iterations == self.cg_iterations,
            run.pressure_operator == self.pressure_operator,
        ensures
            final(out)@ == old(out)@ + summary_line(self@, solver),
    {
        let settings = settings_for_solver(solver, run);
        let output = output_path_for_solver(
            self.base_output_path.as_str(),
            solver,
            self.multiple_outputs,
        );
        let mut line: Vec<char> = Vec::new();
        push_str(&mut line, "- ");
        let name = solver.display_name();
        push_str(&mut line, name.as_str());
        push_str(&mut line, " output=");
        push_str(&mut line, output.as_str());
        let ghost head = line@;
        push_grid(&mut line, &settings);
        push_counts(&mut line, &settings);
        push_str(&mut line, "\n");
        assert(line@ =~= summary_line(self@, solver));
        crate::text::push_chars(out, &line);
    }

    /// The dry-run text of the run.
    pub fn dry_run_summary(&self) -> (r: String)
        ensures
            r@ == dry_run_summary_spec(self@),
    {
        let mut out: Vec<char> = Vec::new();
        push_str(&mut out, "coffee-sim profiler dry run\n");
        push_str(&mut out, "scene: ");
        push_str(&mut out, self.scene.id());
        push_str(&mut out, "\n");
        push_str(&mut out, "solvers: ");
        let ids = ids_chars(&self.solvers);
        push_joined(&mut out, &ids, ", ");
        push_str(&mut out, "\n");
        push_str(&mut out, "pressure_operator: ");
        push_str(&mut out, self.pressure_operator.id());
        push_str(&mut out, "\n");
        push_str(&mut out, "frames: warmup=");
        push_u32(&mut out, self.warmup);
        push_str(&mut out, " measured=");
        push_u32(&mut out, self.measured);
        push_str(&mut out, " calibration=");
        push_u32(&mut out, self.calibration);
        push_str(&mut out, "\n");
        push_str(&mut out, "base_output: ");
        push_str(&mut out, self.base_output_path.as_str());
        push_str(&mut out, "\n");
        assert(out@ =~= summary_head(self@));
        let run = self.run_config();
        let mut i: usize = 0;
        assert(self.solvers@.subrange(0, 0) =~= Seq::<SolverSpec>::empty());
        while i < self.solvers.len()
            invariant
                i <= self.solvers.len(),
                run.scene == self.scene,
                run.cg_iterations == self.cg_iterations,
                run.pressure_operator == self.pressure_operator,
                out@ == summary_head(self@) + summary_lines(
                    self@,
                    self.solvers@.subrange(0, i as int),
                ),
            decreases self.solvers.len() - i,
        {
            let ghost next = self.solvers@.subrange(0, i + 1);
            assert(next.drop_last() =~= self.solvers@.subrange(0, i as int));
            self.push_summary_line(&mut out, &run, self.solvers[i]);
            assert(out@ =~= summary_head(self@) + summary_lines(self@, next));
            i = i + 1;
        }
        assert(self.solvers@.subrange(0, self.solvers.len() as int) =~= self.solvers@);
        chars_to_string(&out)
    }

    fn solver_plan(&self, run: &ProfilerRunConfig, solver: SolverSpec) -> (r: DryRunSolverPlan)
        requires
            run.scene == self.scene,
            run.cg_iterations == self.cg_iterations,
            run.pressure_operator == self.pressure_operator,
        ensures
            is_solver_plan(r, self@, solver),
    {
        let settings = settings_for_solver(solver, run);
        DryRunSolverPlan {
            solver: solver.display_name(),
            metadata: dry_run_solver_metadata(solver, &settings),
            output_path: output_path_for_solver(
                self.base_output_path.as_str(),
                solver,
                self.multiple_outputs,
            ),
            grid_dims: settings.grid_dims,
            substeps: settings.substeps,
            max_particles: settings.max_particles,
            pressure_rbgs_pairs: settings.pressure_rbgs_pairs,
            pressure_cg_iterations: settings.pressure_cg_iterations,
        }
    }

    /// The machine-readable plan of the run.
    pub fn dry_run_plan(&self) -> (r: DryRunPlan)
        ensures
            is_dry_run_plan(r, self@),
    {
        let run = self.run_config();
        let mut solvers: Vec<DryRunSolverPlan> = Vec::new();
        let mut i: usize = 0;
        while i < self.solvers.len()
            invariant
                i <= self.solvers.len(),
                run.scene == self.scene,
                run.cg_iterations == self.cg_iterations,
                run.pressure_operator == self.pressure_operator,
                solvers.len() == i,
                forall|j: int|
                    0 <= j < i ==> is_solver_plan(
                        #[trigger] solvers@[j],
                        self@,
                        self.solvers@[j],
                    ),
            decreases self.solvers.len() - i,
        {
            let p = self.solver_plan(&run, self.solvers[i]);
            solvers.push(p);
            i = i + 1;
        }
        DryRunPlan {
            schema_version: 1,
            mode: chars_to_string(&str_chars("dry_run")),
            scene: chars_to_string(&str_chars(self.scene.id())),
            pressure_operator: chars_to_string(&str_chars(self.pressure_operator.id())),
            warmup_frames: self.warmup,
            measured_frames: self.measured,
            calibration_frames: self.calibration,
            base_output_path: self.base_output_path.clone(),
            multiple_outputs: self.multiple_outputs,
            solvers,
        }
    }
}


// ---------------------------------------------------------------------------
// Laws
// ---------------------------------------------------------------------------

proof fn lemma_collocated_never_unsupported(solvers: Seq<SolverSpec>)
    ensures
        first_unsupported(solvers, PressureOperatorKind::Collocated) is None,
    decreases solvers.len(),
{
    if solvers.len() > 0 {
        lemma_collocated_never_unsupported(solvers.subrange(1, solvers.len() as int));
    }
}

/// A run can be planned exactly when its scene, its solver selection and its
/// pressure operator parse: the only operator that parses is the collocated
/// one, and every solver supports it.
pub proof fn lemma_selection_succeeds_iff_parts_parse(cli: CliArgsModel, env: EnvModel)
    ensures
        selection_spec(cli, env) is Ok <==> ({
            &&& parse_profile_scene_spec(
                match or_else(cli.scene, env.scene) {
                    Some(t) => t,
                    None => "center_pour"@,
                },
            ) is Ok
            &&& solver_selection_spec(cli, env.solvers, env.solver) is Ok
            &&& parse_operator_kind_spec(
                match or_else(cli.pressure_operator, env.pressure_operator) {
                    Some(t) => t,
                    None => "collocated"@,
                },
            ) is Ok
        }),
{
    match solver_selection_spec(cli, env.solvers, env.solver) {
        Ok(solvers) => lemma_collocated_never_unsupported(solvers),
        Err(_) => {},
    }
}

proof fn lemma_parsed_selection_nonempty(value: Seq<char>)
    ensures
        parse_solver_specs_spec(value) matches Ok(v) ==> v.len() > 0,
{
}

/// A planned run profiles at least one solver, records the solvers' ids in
/// order, and writes one report per solver exactly when it has several.
pub proof fn lemma_selection_shape(cli: CliArgsModel, env: EnvModel)
    ensures
        selection_spec(cli, env) matches Ok(m) ==> {
            &&& m.solvers.len() > 0
            &&& m.solver_ids == ids_of(m.solvers)
            &&& m.multiple_outputs == (m.solvers.len() > 1)
        },
{
    lemma_parsed_selection_nonempty(
        match cli.solvers {
            Some(v) => v,
            None => match cli.solver {
                Some(v) => v,
                None => match env.solvers {
                    Some(v) => v,
                    None => match env.solver {
                        Some(v) => v,
                        None => "rbgs"@,
                    },
                },
            },
        },
    );
}

/// A frame count taken from the command line when it is given there, else
/// from its own environment variable when that holds a positive integer,
/// else from its default.
pub open spec fn count_from(cli: Option<u32>, env: Option<Seq<char>>, default: u32) -> u32 {
    match cli {
        Some(c) => c,
        None => match env {
            Some(t) => match parse_u32_spec(t) {
                Some(n) => if n > 0 {
                    n
                } else {
                    default
                },
                None => default,
            },
            None => default,
        },
    }
}

/// Each frame count of a planned run comes from its own option and its own
/// variable: warm-up from `--warmup` or `COFFEE_SIM_PROFILE_WARMUP`, measured
/// frames from `--frames` or `COFFEE_SIM_PROFILE_FRAMES`, calibration from
/// `--cal` or `COFFEE_SIM_PROFILE_CAL`, each with its own default. So the
/// variables of the other counts never change it: two environments that
/// differ only in the other counts' variables plan the same count.
pub proof fn lemma_frame_counts_have_their_own_sources(
    cli: CliArgsModel,
    env: EnvModel,
    other_warmup: Option<Seq<char>>,
    other_frames: Option<Seq<char>>,
    other_calibration: Option<Seq<char>>,
)
    ensures
        selection_spec(cli, env) matches Ok(m) ==> {
            &&& m.warmup == count_from(cli.warmup, env.warmup, DEFAULT_WARMUP_FRAMES)
            &&& m.measured == count_from(cli.measured, env.frames, DEFAULT_MEASURED_FRAMES)
            &&& m.calibration == count_from(
                cli.calibration,
                env.calibration,
                DEFAULT_CALIBRATION_FRAMES,
            )
        },
        ({
            let e2 = EnvModel { warmup: other_warmup, frames: other_frames, ..env };
            selection_spec(cli, env) matches Ok(m) ==> selection_spec(cli, e2) matches Ok(m2)
                && m2.calibration == m.calibration
        }),
        ({
            let e2 = EnvModel { warmup: other_warmup, calibration: other_calibration, ..env };
            selection_spec(cli, env) matches Ok(m) ==> selection_spec(cli, e2) matches Ok(m2)
                && m2.measured == m.measured
        }),
        ({
            let e2 = EnvModel { frames: other_frames, calibration: other_calibration, ..env };
            selection_spec(cli, env) matches Ok(m) ==> selection_spec(cli, e2) matches Ok(m2)
                && m2.warmup == m.warmup
        }),
{
}

/// A solver named on the command line wins over the environment's solver
/// variables.
pub proof fn lemma_cli_solvers_override_env(
    cli: CliArgsModel,
    solvers_env: Option<Seq<char>>,
    solver_env: Option<Seq<char>>,
)
    requires
        cli.solvers is Some || cli.solver is Some,
    ensures
        solver_selection_spec(cli, solvers_env, solver_env) == solver_selection_spec(
            cli,
            None,
            None,
        ),
{
}

/// Every report of a multi-solver plan has its own path.
pub proof fn lemma_plan_outputs_distinct(sel: SelectionModel, i: int, j: int)
    requires
        sel.multiple_outputs,
        0 <= i < sel.solvers.len(),
        0 <= j < sel.solvers.len(),
        sel.solvers[i] != sel.solvers[j],
    ensures
        output_path_spec(sel.base_output_path, sel.solvers[i], true) != output_path_spec(
            sel.base_output_path,
            sel.solvers[j],
            true,
        ),
{
    crate::profiler::lemma_output_paths_distinct(sel.base_output_path, sel.solvers[i], sel.solvers[j]);
}

} // verus!
