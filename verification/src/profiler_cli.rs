//! Command-line options of the profiling harness: `--flag value`,
//! `--flag=value` and `key=value` forms, boolean switches, and how options
//! from the `COFFEE_SIM_PROFILE_ARGS` variable and from the process
//! arguments are combined.
use vstd::prelude::*;

use crate::text::{
    chars_eq_str, chars_to_string, framed, lower, normalize_chars, parse_u32_chars, parse_u32_spec,
    split_once, split_once_chars, str_chars, sub_chars, trim, words, words_chars,
};

verus! {

/// An option the harness understands, whatever spelling named it.
#[derive(Clone, Copy, Debug, PartialEq, Eq, Structural)]
pub enum CliOption {
    Scene,
    Solver,
    Solvers,
    PressureOperator,
    Warmup,
    Frames,
    Calibration,
    Output,
    CgIterations,
    DryRun,
    DryRunJson,
    ListSolvers,
    Help,
}

/// The option a flag names: its `--` form, its aliases, or its bare
/// `key` form.
pub open spec fn cli_option_spec(f: Seq<char>) -> Option<CliOption> {
    if f == "scene"@ || f == "--scene"@ {
        Some(CliOption::Scene)
    } else if f == "solver"@ || f == "--solver"@ {
        Some(CliOption::Solver)
    } else if f == "solvers"@ || f == "--solvers"@ {
        Some(CliOption::Solvers)
    } else if f == "pressure_operator"@ || f == "pressure-operator"@ || f == "operator"@ || f
        == "--pressure-operator"@ || f == "--operator"@ {
        Some(CliOption::PressureOperator)
    } else if f == "warmup"@ || f == "--warmup"@ {
        Some(CliOption::Warmup)
    } else if f == "frames"@ || f == "measured"@ || f == "--frames"@ || f == "--measured"@ {
        Some(CliOption::Frames)
    } else if f == "cal"@ || f == "calibration"@ || f == "--cal"@ || f == "--calibration"@ {
        Some(CliOption::Calibration)
    } else if f == "out"@ || f == "output"@ || f == "--out"@ || f == "--output"@ {
        Some(CliOption::Output)
    } else if f == "cg_iterations"@ || f == "cg-iterations"@ || f == "--cg-iterations"@ {
        Some(CliOption::CgIterations)
    } else if f == "dry_run"@ || f == "dry-run"@ || f == "--dry-run"@ {
        Some(CliOption::DryRun)
    } else if f == "dry_run_json"@ || f == "dry-run-json"@ || f == "--dry-run-json"@ {
        Some(CliOption::DryRunJson)
    } else if f == "list_solvers"@ || f == "list-solvers"@ || f == "--list-solvers"@ {
        Some(CliOption::ListSolvers)
    } else if f == "help"@ || f == "--help"@ || f == "-h"@ {
        Some(CliOption::Help)
    } else {
        None
    }
}

/// The name an option's errors use.
pub open spec fn option_name(o: CliOption) -> Seq<char> {
    match o {
        CliOption::Scene => "--scene"@,
        CliOption::Solver => "--solver"@,
        CliOption::Solvers => "--solvers"@,
        CliOption::PressureOperator => "--pressure-operator"@,
        CliOption::Warmup => "--warmup"@,
        CliOption::Frames => "--frames"@,
        CliOption::Calibration => "--cal"@,
        CliOption::Output => "--out"@,
        CliOption::CgIterations => "--cg-iterations"@,
        CliOption::DryRun => "--dry-run"@,
        CliOption::DryRunJson => "--dry-run-json"@,
        CliOption::ListSolvers => "--list-solvers"@,
        CliOption::Help => "--help"@,
    }
}

/// Options that need a value; the others are switches.
pub open spec fn takes_value(o: CliOption) -> bool {
    !(o is DryRun || o is DryRunJson || o is ListSolvers || o is Help)
}

/// The options given so far, each absent until some argument sets it.
pub struct CliArgsModel {
    pub scene: Option<Seq<char>>,
    pub solver: Option<Seq<char>>,
    pub solvers: Option<Seq<char>>,
    pub pressure_operator: Option<Seq<char>>,
    pub warmup: Option<u32>,
    pub measured: Option<u32>,
    pub calibration: Option<u32>,
    pub output: Option<Seq<char>>,
    pub cg_iterations: Option<u32>,
    pub dry_run: Option<bool>,
    pub dry_run_json: Option<bool>,
    pub list_solvers: Option<bool>,
    pub help: Option<bool>,
}

pub open spec fn default_model() -> CliArgsModel {
    CliArgsModel {
        scene: None,
        solver: None,
        solvers: None,
        pressure_operator: None,
        warmup: None,
        measured: None,
        calibration: None,
        output: None,
        cg_iterations: None,
        dry_run: None,
        dry_run_json: None,
        list_solvers: None,
        help: None,
    }
}

/// Parsed profiler options.
#[derive(Debug)]
pub struct ProfilerCliArgs {
    pub scene: Option<String>,
    pub solver: Option<String>,
    pub solvers: Option<String>,
    pub pressure_operator: Option<String>,
    pub warmup: Option<u32>,
    pub measured: Option<u32>,
    pub calibration: Option<u32>,
    pub output: Option<String>,
    pub cg_iterations: Option<u32>,
    pub dry_run: Option<bool>,
    pub dry_run_json: Option<bool>,
    pub list_solvers: Option<bool>,
    pub help: Option<bool>,
}

pub open spec fn opt_str(o: Option<String>) -> Option<Seq<char>> {
    match o {
        Some(s) => Some(s@),
        None => None,
    }
}

impl View for ProfilerCliArgs {
    type V = CliArgsModel;

    open spec fn view(&self) -> CliArgsModel {
        CliArgsModel {
            scene: opt_str(self.scene),
            solver: opt_str(self.solver),
            solvers: opt_str(self.solvers),
            pressure_operator: opt_str(self.pressure_operator),
            warmup: self.warmup,
            measured: self.measured,
            calibration: self.calibration,
            output: opt_str(self.output),
            cg_iterations: self.cg_iterations,
            dry_run: self.dry_run,
            dry_run_json: self.dry_run_json,
            list_solvers: self.list_solvers,
            help: self.help,
        }
    }
}

impl Default for ProfilerCliArgs {
    fn default() -> (r: Self)
        ensures
            r@ == default_model(),
    {
        ProfilerCliArgs {
            scene: None,
            solver: None,
            solvers: None,
            pressure_operator: None,
            warmup: None,
            measured: None,
            calibration: None,
            output: None,
            cg_iterations: None,
            dry_run: None,
            dry_run_json: None,
            list_solvers: None,
            help: None,
        }
    }
}

pub open spec fn or_else<T>(later: Option<T>, earlier: Option<T>) -> Option<T> {
    match later {
        Some(x) => Some(x),
        None => earlier,
    }
}

/// Options of `later` override those of `earlier`; what `later` leaves out,
/// `earlier` keeps.
pub open spec fn merge_spec(earlier: CliArgsModel, later: CliArgsModel) -> CliArgsModel {
    CliArgsModel {
        scene: or_else(later.scene, earlier.scene),
        solver: or_else(later.solver, earlier.solver),
        solvers: or_else(later.solvers, earlier.solvers),
        pressure_operator: or_else(later.pressure_operator, earlier.pressure_operator),
        warmup: or_else(later.warmup, earlier.warmup),
        measured: or_else(later.measured, earlier.measured),
        calibration: or_else(later.calibration, earlier.calibration),
        output: or_else(later.output, earlier.output),
        cg_iterations: or_else(later.cg_iterations, earlier.cg_iterations),
        dry_run: or_else(later.dry_run, earlier.dry_run),
        dry_run_json: or_else(later.dry_run_json, earlier.dry_run_json),
        list_solvers: or_else(later.list_solvers, earlier.list_solvers),
        help: or_else(later.help, earlier.help),
    }
}

// ---------------------------------------------------------------------------
// Values
// ---------------------------------------------------------------------------

pub open spec fn positive_message(name: Seq<char>, v: Seq<char>) -> Seq<char> {
    name + " must be a positive integer, got '"@ + v + "'"@
}

/// A count option: a `u32` greater than zero.
pub open spec fn positive_u32_spec(name: Seq<char>, v: Seq<char>) -> Result<u32, Seq<char>> {
    match parse_u32_spec(v) {
        Some(n) => if n > 0 {
            Ok(n)
        } else {
            Err(positive_message(name, v))
        },
        None => Err(positive_message(name, v)),
    }
}

/// A switch value: `1`, `true`, `yes`, `on` or `0`, `false`, `no`, `off`,
/// ignoring surrounding whitespace and ASCII case.
pub open spec fn parse_bool_spec(v: Seq<char>) -> Result<bool, Seq<char>> {
    let k = lower(trim(v));
    if k == "1"@ || k == "true"@ || k == "yes"@ || k == "on"@ {
        Ok(true)
    } else if k == "0"@ || k == "false"@ || k == "no"@ || k == "off"@ {
        Ok(false)
    } else {
        Err("--dry-run must be a boolean when a value is provided, got '"@ + k + "'"@)
    }
}

/// A switch given without a value is on.
pub open spec fn parse_optional_bool_spec(v: Option<Seq<char>>) -> Result<bool, Seq<char>> {
    match v {
        None => Ok(true),
        Some(s) => parse_bool_spec(s),
    }
}

pub open spec fn bool_result_view(r: Result<bool, String>) -> Result<bool, Seq<char>> {
    match r {
        Ok(b) => Ok(b),
        Err(e) => Err(e@),
    }
}

pub open spec fn u32_result_view(r: Result<u32, String>) -> Result<u32, Seq<char>> {
    match r {
        Ok(n) => Ok(n),
        Err(e) => Err(e@),
    }
}

fn parse_positive_u32_chars(name: &str, value: &Vec<char>) -> (r: Result<u32, String>)
    ensures
        u32_result_view(r) == positive_u32_spec(name@, value@),
{
    match parse_u32_chars(value) {
        Some(n) => {
            if n > 0 {
                return Ok(n);
            }
        },
        None => {},
    }
    let mut msg: Vec<char> = Vec::new();
    crate::text::push_str(&mut msg, name);
    crate::text::push_str(&mut msg, " must be a positive integer, got '");
    crate::text::push_chars(&mut msg, value);
    crate::text::push_str(&mut msg, "'");
    Err(chars_to_string(&msg))
}

/// Parses a count option's value.
pub fn parse_positive_u32(name: &str, value: &str) -> (r: Result<u32, String>)
    ensures
        u32_result_view(r) == positive_u32_spec(name@, value@),
{
    parse_positive_u32_chars(name, &str_chars(value))
}

fn parse_bool_chars(value: &Vec<char>) -> (r: Result<bool, String>)
    ensures
        bool_result_view(r) == parse_bool_spec(value@),
{
    let k = normalize_chars(value);
    if chars_eq_str(&k, "1") || chars_eq_str(&k, "true") || chars_eq_str(&k, "yes")
        || chars_eq_str(&k, "on") {
        Ok(true)
    } else if chars_eq_str(&k, "0") || chars_eq_str(&k, "false") || chars_eq_str(&k, "no")
        || chars_eq_str(&k, "off") {
        Ok(false)
    } else {
        Err(framed("--dry-run must be a boolean when a value is provided, got '", &k, "'"))
    }
}

/// Parses a switch value.
pub fn parse_bool(value: &str) -> (r: Result<bool, String>)
    ensures
        bool_result_view(r) == parse_bool_spec(value@),
{
    parse_bool_chars(&str_chars(value))
}

pub open spec fn opt_str_ref(o: Option<&str>) -> Option<Seq<char>> {
    match o {
        Some(s) => Some(s@),
        None => None,
    }
}

/// Parses an optional switch value; no value means on.
pub fn parse_optional_bool(value: Option<&str>) -> (r: Result<bool, String>)
    ensures
        bool_result_view(r) == parse_optional_bool_spec(opt_str_ref(value)),
{
    match value {
        Some(v) => parse_bool(v),
        None => Ok(true),
    }
}

/// A count taken from the environment: kept only when it is a positive
/// `u32`.
pub open spec fn env_u32_spec(value: Option<Seq<char>>) -> Option<u32> {
    match value {
        Some(v) => match parse_u32_spec(v) {
            Some(n) => if n > 0 {
                Some(n)
            } else {
                None
            },
            None => None,
        },
        None => None,
    }
}

pub fn env_u32_value(value: Option<String>) -> (r: Option<u32>)
    ensures
        r == env_u32_spec(opt_str(value)),
{
    match value {
        Some(v) => match crate::text::parse_u32_str(v.as_str()) {
            Some(n) => if n > 0 {
                Some(n)
            } else {
                None
            },
            None => None,
        },
        None => None,
    }
}


// ---------------------------------------------------------------------------
// Parsing
// ---------------------------------------------------------------------------

/// The state after giving option `o` the value `v`.
pub open spec fn with_value(m: CliArgsModel, o: CliOption, v: Seq<char>) -> Result<CliArgsModel, Seq<char>> {
    match o {
        CliOption::Scene => Ok(CliArgsModel { scene: Some(v), ..m }),
        CliOption::Solver => Ok(CliArgsModel { solver: Some(v), ..m }),
        CliOption::Solvers => Ok(CliArgsModel { solvers: Some(v), ..m }),
        CliOption::PressureOperator => Ok(CliArgsModel { pressure_operator: Some(v), ..m }),
        CliOption::Output => Ok(CliArgsModel { output: Some(v), ..m }),
        CliOption::Warmup => match positive_u32_spec("--warmup"@, v) {
            Ok(n) => Ok(CliArgsModel { warmup: Some(n), ..m }),
            Err(e) => Err(e),
        },
        CliOption::Frames => match positive_u32_spec("--frames"@, v) {
            Ok(n) => Ok(CliArgsModel { measured: Some(n), ..m }),
            Err(e) => Err(e),
        },
        CliOption::Calibration => match positive_u32_spec("--cal"@, v) {
            Ok(n) => Ok(CliArgsModel { calibration: Some(n), ..m }),
            Err(e) => Err(e),
        },
        CliOption::CgIterations => match positive_u32_spec("--cg-iterations"@, v) {
            Ok(n) => Ok(CliArgsModel { cg_iterations: Some(n), ..m }),
            Err(e) => Err(e),
        },
        _ => Ok(m),
    }
}

/// The state after setting switch `o` to `b`.
pub open spec fn with_switch(m: CliArgsModel, o: CliOption, b: bool) -> CliArgsModel {
    match o {
        CliOption::DryRun => CliArgsModel { dry_run: Some(b), ..m },
        CliOption::DryRunJson => CliArgsModel { dry_run_json: Some(b), ..m },
        CliOption::ListSolvers => CliArgsModel { list_solvers: Some(b), ..m },
        CliOption::Help => CliArgsModel { help: Some(b), ..m },
        _ => m,
    }
}

pub open spec fn unknown_option_message(f: Seq<char>) -> Seq<char> {
    "unknown profiler option '"@ + f
        + "'; supported options: --scene, --solver, --solvers, --pressure-operator, --warmup, --frames, --cal, --out, --cg-iterations, --dry-run, --dry-run-json, --list-solvers, --help, or kwargs scene=, solver=, solvers=, pressure_operator=, warmup=, frames=, cal=, out=, cg_iterations=, dry_run=, dry_run_json=, list_solvers=, help="@
}

pub open spec fn missing_value_message(o: CliOption) -> Seq<char> {
    "missing value for profiler option "@ + option_name(o)
}

/// Flag and inline value of one argument: the text before and after its
/// first `=`, or the whole argument and no value.
pub open spec fn flag_and_value(arg: Seq<char>) -> (Seq<char>, Option<Seq<char>>) {
    match split_once(arg, '=') {
        Some((f, v)) => (f, Some(v)),
        None => (arg, None),
    }
}

/// Reads the option at the front of `rest`: the new state and how many
/// arguments it used. An option that needs a value takes its inline value,
/// or else the next argument.
pub open spec fn parse_step(rest: Seq<Seq<char>>, m: CliArgsModel) -> Result<(CliArgsModel, nat), Seq<char>> {
    let (flag, inline) = flag_and_value(rest[0]);
    match cli_option_spec(flag) {
        None => Err(unknown_option_message(flag)),
        Some(o) => if takes_value(o) {
            match inline {
                Some(v) => match with_value(m, o, v) {
                    Ok(m2) => Ok((m2, 1nat)),
                    Err(e) => Err(e),
                },
                None => if rest.len() >= 2 {
                    match with_value(m, o, rest[1]) {
                        Ok(m2) => Ok((m2, 2nat)),
                        Err(e) => Err(e),
                    }
                } else {
                    Err(missing_value_message(o))
                },
            }
        } else {
            match parse_optional_bool_spec(inline) {
                Ok(b) => Ok((with_switch(m, o, b), 1nat)),
                Err(e) => Err(e),
            }
        },
    }
}

/// Reads all of `rest` on top of `m`; the first bad argument decides the
/// error.
pub open spec fn parse_args_from(rest: Seq<Seq<char>>, m: CliArgsModel) -> Result<CliArgsModel, Seq<char>>
    decreases rest.len(),
{
    if rest.len() == 0 {
        Ok(m)
    } else {
        match parse_step(rest, m) {
            Err(e) => Err(e),
            Ok((m2, used)) => if 1 <= used <= rest.len() {
                parse_args_from(rest.subrange(used as int, rest.len() as int), m2)
            } else {
                Ok(m2)
            },
        }
    }
}

/// The options an argument list gives.
pub open spec fn parse_args_spec(args: Seq<Seq<char>>) -> Result<CliArgsModel, Seq<char>> {
    parse_args_from(args, default_model())
}

pub open spec fn cli_result_view(r: Result<ProfilerCliArgs, String>) -> Result<CliArgsModel, Seq<char>> {
    match r {
        Ok(a) => Ok(a@),
        Err(e) => Err(e@),
    }
}

pub open spec fn strs_view(s: Seq<&str>) -> Seq<Seq<char>> {
    s.map_values(|x: &str| x@)
}

fn cli_option_of(f: &Vec<char>) -> (r: Option<CliOption>)
    ensures
        r == cli_option_spec(f@),
{
    if chars_eq_str(f, "scene") || chars_eq_str(f, "--scene") {
        Some(CliOption::Scene)
    } else if chars_eq_str(f, "solver") || chars_eq_str(f, "--solver") {
        Some(CliOption::Solver)
    } else if chars_eq_str(f, "solvers") || chars_eq_str(f, "--solvers") {
        Some(CliOption::Solvers)
    } else if chars_eq_str(f, "pressure_operator") || chars_eq_str(f, "pressure-operator")
        || chars_eq_str(f, "operator") || chars_eq_str(f, "--pressure-operator") || chars_eq_str(
        f,
        "--operator",
    ) {
        Some(CliOption::PressureOperator)
    } else if chars_eq_str(f, "warmup") || chars_eq_str(f, "--warmup") {
        Some(CliOption::Warmup)
    } else if chars_eq_str(f, "frames") || chars_eq_str(f, "measured") || chars_eq_str(
        f,
        "--frames",
    ) || chars_eq_str(f, "--measured") {
        Some(CliOption::Frames)
    } else if chars_eq_str(f, "cal") || chars_eq_str(f, "calibration") || chars_eq_str(f, "--cal")
        || chars_eq_str(f, "--calibration") {
        Some(CliOption::Calibration)
    } else if chars_eq_str(f, "out") || chars_eq_str(f, "output") || chars_eq_str(f, "--out")
        || chars_eq_str(f, "--output") {
        Some(CliOption::Output)
    } else if chars_eq_str(f, "cg_iterations") || chars_eq_str(f, "cg-iterations")
        || chars_eq_str(f, "--cg-iterations") {
        Some(CliOption::CgIterations)
    } else if chars_eq_str(f, "dry_run") || chars_eq_str(f, "dry-run") || chars_eq_str(
        f,
        "--dry-run",
    ) {
        Some(CliOption::DryRun)
    } else if chars_eq_str(f, "dry_run_json") || chars_eq_str(f, "dry-run-json")
        || chars_eq_str(f, "--dry-run-json") {
        Some(CliOption::DryRunJson)
    } else if chars_eq_str(f, "list_solvers") || chars_eq_str(f, "list-solvers")
        || chars_eq_str(f, "--list-solvers") {
        Some(CliOption::ListSolvers)
    } else if chars_eq_str(f, "help") || chars_eq_str(f, "--help") || chars_eq_str(f, "-h") {
        Some(CliOption::Help)
    } else {
        None
    }
}

fn option_name_of(o: CliOption) -> (r: &'static str)
    ensures
        r@ == option_name(o),
{
    match o {
        CliOption::Scene => "--scene",
        CliOption::Solver => "--solver",
        CliOption::Solvers => "--solvers",
        CliOption::PressureOperator => "--pressure-operator",
        CliOption::Warmup => "--warmup",
        CliOption::Frames => "--frames",
        CliOption::Calibration => "--cal",
        CliOption::Output => "--out",
        CliOption::CgIterations => "--cg-iterations",
        CliOption::DryRun => "--dry-run",
        CliOption::DryRunJson => "--dry-run-json",
        CliOption::ListSolvers => "--list-solvers",
        CliOption::Help => "--help",
    }
}

fn copy_chars(v: &Vec<char>) -> (r: Vec<char>)
    ensures
        r@ == v@,
{
    let r = sub_chars(v, 0, v.len());
    assert(r@ =~= v@);
    r
}

impl ProfilerCliArgs {
    fn apply_value(&mut self, o: CliOption, v: &Vec<char>) -> (r: Result<(), String>)
        requires
            takes_value(o),
        ensures
            match r {
                Ok(()) => with_value(old(self)@, o, v@) == Ok::<CliArgsModel, Seq<char>>(
                    final(self)@,
                ),
                Err(e) => with_value(old(self)@, o, v@) == Err::<CliArgsModel, Seq<char>>(e@),
            },
    {
        match o {
            CliOption::Scene => {
                self.scene = Some(chars_to_string(v));
            },
            CliOption::Solver => {
                self.solver = Some(chars_to_string(v));
            },
            CliOption::Solvers => {
                self.solvers = Some(chars_to_string(v));
            },
            CliOption::PressureOperator => {
                self.pressure_operator = Some(chars_to_string(v));
            },
            CliOption::Output => {
                self.output = Some(chars_to_string(v));
            },
            CliOption::Warmup => {
                let n = parse_positive_u32_chars("--warmup", v)?;
                self.warmup = Some(n);
            },
            CliOption::Frames => {
                let n = parse_positive_u32_chars("--frames", v)?;
                self.measured = Some(n);
            },
            CliOption::Calibration => {
                let n = parse_positive_u32_chars("--cal", v)?;
                self.calibration = Some(n);
            },
            CliOption::CgIterations => {
                let n = parse_positive_u32_chars("--cg-iterations", v)?;
                self.cg_iterations = Some(n);
            },
            _ => {},
        }
        Ok(())
    }

    fn apply_switch(&mut self, o: CliOption, b: bool)
        ensures
            final(self)@ == with_switch(old(self)@, o, b),
    {
        match o {
            CliOption::DryRun => {
                self.dry_run = Some(b);
            },
            CliOption::DryRunJson => {
                self.dry_run_json = Some(b);
            },
            CliOption::ListSolvers => {
                self.list_solvers = Some(b);
            },
            CliOption::Help => {
                self.help = Some(b);
            },
            _ => {},
        }
    }

    /// Parses the arguments of `args` from index `start` on.
    pub fn parse_from(args: &Vec<Vec<char>>, start: usize) -> (r: Result<Self, String>)
        requires
            start <= args.len(),
        ensures
            cli_result_view(r) == parse_args_spec(
                args.deep_view().subrange(start as int, args.len() as int),
            ),
    {
        let n = args.len();
        let ghost all = args.deep_view();
        let mut parsed = Self::default();
        let mut i: usize = start;
        while i < n
            invariant
                start <= i <= n,
                n == args.len(),
                all == args.deep_view(),
                parse_args_spec(all.subrange(start as int, n as int)) == parse_args_from(
                    all.subrange(i as int, n as int),
                    parsed@,
                ),
            decreases n - i,
        {
            let ghost rest = all.subrange(i as int, n as int);
            assert(rest[0] == args@[i as int]@);
            let (flag, inline) = match split_once_chars(&args[i], '=') {
                Some((f, v)) => (f, Some(v)),
                None => (copy_chars(&args[i]), None),
            };
            let ghost inline_view: Option<Seq<char>> = match &inline {
                Some(v) => Some(v@),
                None => None,
            };
            assert(flag_and_value(rest[0]) == (flag@, inline_view));
            let used: usize;
            match cli_option_of(&flag) {
                None => {
                    return Err(
                        framed(
                            "unknown profiler option '",
                            &flag,
                            "'; supported options: --scene, --solver, --solvers, --pressure-operator, --warmup, --frames, --cal, --out, --cg-iterations, --dry-run, --dry-run-json, --list-solvers, --help, or kwargs scene=, solver=, solvers=, pressure_operator=, warmup=, frames=, cal=, out=, cg_iterations=, dry_run=, dry_run_json=, list_solvers=, help=",
                        ),
                    );
                },
                Some(o) => {
                    let is_switch = match o {
                        CliOption::DryRun | CliOption::DryRunJson | CliOption::ListSolvers
                        | CliOption::Help => true,
                        _ => false,
                    };
                    if !is_switch {
                        let value: Vec<char>;
                        match inline {
                            Some(v) => {
                                value = v;
                                used = 1;
                            },
                            None => {
                                if i + 1 < n {
                                    value = copy_chars(&args[i + 1]);
                                    assert(rest[1] == args@[i + 1]@);
                                    used = 2;
                                } else {
                                    let mut msg: Vec<char> = Vec::new();
                                    crate::text::push_str(
                                        &mut msg,
                                        "missing value for profiler option ",
                                    );
                                    crate::text::push_str(&mut msg, option_name_of(o));
                                    return Err(chars_to_string(&msg));
                                }
                            },
                        }
                        match parsed.apply_value(o, &value) {
                            Ok(()) => {},
                            Err(e) => {
                                return Err(e);
                            },
                        }
                    } else {
                        let b = match inline {
                            None => true,
                            Some(v) => match parse_bool_chars(&v) {
                                Ok(b) => b,
                                Err(e) => {
                                    return Err(e);
                                },
                            },
                        };
                        parsed.apply_switch(o, b);
                        used = 1;
                    }
                },
            }
            assert(all.subrange(i + used, n as int) =~= rest.subrange(
                used as int,
                rest.len() as int,
            ));
            i = i + used;
        }
        assert(all.subrange(n as int, n as int) =~= Seq::<Seq<char>>::empty());
        Ok(parsed)
    }

    /// Parses a whole argument list.
    pub fn parse(args: &[&str]) -> (r: Result<Self, String>)
        ensures
            cli_result_view(r) == parse_args_spec(strs_view(args@)),
    {
        let v = strs_chars(args);
        let r = Self::parse_from(&v, 0);
        assert(v.deep_view().subrange(0, v.len() as int) =~= v.deep_view());
        r
    }

    /// Lays `other` over `self`: every option `other` gives replaces the
    /// one in `self`.
    pub fn merge(&mut self, other: Self)
        ensures
            final(self)@ == merge_spec(old(self)@, other@),
    {
        let ProfilerCliArgs {
            scene,
            solver,
            solvers,
            pressure_operator,
            warmup,
            measured,
            calibration,
            output,
            cg_iterations,
            dry_run,
            dry_run_json,
            list_solvers,
            help,
        } = other;
        if scene.is_some() {
            self.scene = scene;
        }
        if solver.is_some() {
            self.solver = solver;
        }
        if solvers.is_some() {
            self.solvers = solvers;
        }
        if pressure_operator.is_some() {
            self.pressure_operator = pressure_operator;
        }
        if warmup.is_some() {
            self.warmup = warmup;
        }
        if measured.is_some() {
            self.measured = measured;
        }
        if calibration.is_some() {
            self.calibration = calibration;
        }
        if output.is_some() {
            self.output = output;
        }
        if cg_iterations.is_some() {
            self.cg_iterations = cg_iterations;
        }
        if dry_run.is_some() {
            self.dry_run = dry_run;
        }
        if dry_run_json.is_some() {
            self.dry_run_json = dry_run_json;
        }
        if list_solvers.is_some() {
            self.list_solvers = list_solvers;
        }
        if help.is_some() {
            self.help = help;
        }
    }
}

/// The characters of each argument.
pub fn strs_chars(args: &[&str]) -> (r: Vec<Vec<char>>)
    ensures
        r.deep_view() == strs_view(args@),
{
    let mut out: Vec<Vec<char>> = Vec::new();
    let mut i: usize = 0;
    while i < args.len()
        invariant
            i <= args.len(),
            out.deep_view() == strs_view(args@).subrange(0, i as int),
        decreases args.len() - i,
    {
        let ghost before = out.deep_view();
        out.push(str_chars(args[i]));
        assert(out.deep_view() =~~= before.push(args@[i as int]@));
        assert(out.deep_view() =~~= strs_view(args@).subrange(0, i + 1));
        i = i + 1;
    }
    assert(strs_view(args@).subrange(0, args.len() as int) =~= strs_view(args@));
    out
}


// ---------------------------------------------------------------------------
// Combining the variable and the process arguments
// ---------------------------------------------------------------------------

/// The arguments that hand the rest of the command line to the profiler.
pub open spec fn is_sentinel(a: Seq<char>) -> bool {
    a == "--profile"@ || a == "--profile-args"@
}

/// Index of the first sentinel, or the length when there is none.
pub open spec fn first_sentinel(raw: Seq<Seq<char>>) -> nat
    decreases raw.len(),
{
    if raw.len() == 0 {
        0
    } else if is_sentinel(raw[0]) {
        0
    } else {
        1 + first_sentinel(raw.subrange(1, raw.len() as int))
    }
}

/// The options of a run: those of the `COFFEE_SIM_PROFILE_ARGS` value (split
/// at white space), overridden by the process arguments after the first
/// `--profile` or `--profile-args`; without such a sentinel the process
/// arguments count only when `accept_raw` holds.
pub open spec fn env_and_args_spec(
    profile_args: Option<Seq<char>>,
    raw: Seq<Seq<char>>,
    accept_raw: bool,
) -> Result<CliArgsModel, Seq<char>> {
    let base = match profile_args {
        None => Ok(default_model()),
        Some(v) => match parse_args_spec(words(v)) {
            Ok(p) => Ok(merge_spec(default_model(), p)),
            Err(e) => Err(e),
        },
    };
    match base {
        Err(e) => Err(e),
        Ok(cli) => {
            let k = first_sentinel(raw) as int;
            if k < raw.len() {
                match parse_args_spec(raw.subrange(k + 1, raw.len() as int)) {
                    Ok(p) => Ok(merge_spec(cli, p)),
                    Err(e) => Err(e),
                }
            } else if accept_raw && raw.len() > 0 {
                match parse_args_spec(raw) {
                    Ok(p) => Ok(merge_spec(cli, p)),
                    Err(e) => Err(e),
                }
            } else {
                Ok(cli)
            }
        },
    }
}

proof fn lemma_first_sentinel_found(raw: Seq<Seq<char>>, k: int)
    requires
        0 <= k <= raw.len(),
        forall|j: int| 0 <= j < k ==> !is_sentinel(#[trigger] raw[j]),
        k < raw.len() ==> is_sentinel(raw[k]),
    ensures
        first_sentinel(raw) == k,
    decreases k,
{
    if k > 0 {
        let t = raw.subrange(1, raw.len() as int);
        assert forall|j: int| 0 <= j < k - 1 implies !is_sentinel(#[trigger] t[j]) by {
            assert(t[j] == raw[j + 1]);
        }
        assert(!is_sentinel(raw[0]));
        lemma_first_sentinel_found(t, k - 1);
    }
}

/// Whether `r` holds every option that `later` gives and, for each option
/// `later` leaves out, the value `earlier` gives.
pub open spec fn laid_over(r: CliArgsModel, earlier: CliArgsModel, later: CliArgsModel) -> bool {
    &&& (later.scene is Some ==> r.scene == later.scene)
    &&& (later.scene is None ==> r.scene == earlier.scene)
    &&& (later.solver is Some ==> r.solver == later.solver)
    &&& (later.solver is None ==> r.solver == earlier.solver)
    &&& (later.solvers is Some ==> r.solvers == later.solvers)
    &&& (later.solvers is None ==> r.solvers == earlier.solvers)
    &&& (later.pressure_operator is Some ==> r.pressure_operator == later.pressure_operator)
    &&& (later.pressure_operator is None ==> r.pressure_operator == earlier.pressure_operator)
    &&& (later.warmup is Some ==> r.warmup == later.warmup)
    &&& (later.warmup is None ==> r.warmup == earlier.warmup)
    &&& (later.measured is Some ==> r.measured == later.measured)
    &&& (later.measured is None ==> r.measured == earlier.measured)
    &&& (later.calibration is Some ==> r.calibration == later.calibration)
    &&& (later.calibration is None ==> r.calibration == earlier.calibration)
    &&& (later.output is Some ==> r.output == later.output)
    &&& (later.output is None ==> r.output == earlier.output)
    &&& (later.cg_iterations is Some ==> r.cg_iterations == later.cg_iterations)
    &&& (later.cg_iterations is None ==> r.cg_iterations == earlier.cg_iterations)
    &&& (later.dry_run is Some ==> r.dry_run == later.dry_run)
    &&& (later.dry_run is None ==> r.dry_run == earlier.dry_run)
    &&& (later.dry_run_json is Some ==> r.dry_run_json == later.dry_run_json)
    &&& (later.dry_run_json is None ==> r.dry_run_json == earlier.dry_run_json)
    &&& (later.list_solvers is Some ==> r.list_solvers == later.list_solvers)
    &&& (later.list_solvers is None ==> r.list_solvers == earlier.list_solvers)
    &&& (later.help is Some ==> r.help == later.help)
    &&& (later.help is None ==> r.help == earlier.help)
}

/// With a sentinel among the process arguments, the arguments after it are
/// laid over the options of `COFFEE_SIM_PROFILE_ARGS`: every option they
/// give wins, and every option they leave out keeps its value from the
/// variable. Either part failing to parse fails the whole with its error,
/// the variable's first.
pub proof fn lemma_sentinel_arguments_lay_over_env_options(
    profile_args: Seq<char>,
    raw: Seq<Seq<char>>,
    accept_raw: bool,
)
    requires
        first_sentinel(raw) < raw.len(),
    ensures
        ({
            let after = raw.subrange(first_sentinel(raw) as int + 1, raw.len() as int);
            let r = env_and_args_spec(Some(profile_args), raw, accept_raw);
            match (parse_args_spec(words(profile_args)), parse_args_spec(after)) {
                (Ok(e), Ok(p)) => r matches Ok(m) && laid_over(m, e, p),
                (Err(x), _) => r == Err::<CliArgsModel, Seq<char>>(x),
                (Ok(_), Err(x)) => r == Err::<CliArgsModel, Seq<char>>(x),
            }
        }),
{
}

impl ProfilerCliArgs {
    /// The options of a run, or the first parse error.
    pub fn try_from_env_and_args(
        profile_args: Option<&str>,
        process_args: &[&str],
        accept_raw_process_args: bool,
    ) -> (r: Result<Self, String>)
        ensures
            cli_result_view(r) == env_and_args_spec(
                opt_str_ref(profile_args),
                strs_view(process_args@),
                accept_raw_process_args,
            ),
    {
        let mut cli = Self::default();
        match profile_args {
            Some(value) => {
                let w = words_chars(&str_chars(value));
                let p = Self::parse_from(&w, 0);
                assert(w.deep_view().subrange(0, w.len() as int) =~= w.deep_view());
                match p {
                    Ok(p) => cli.merge(p),
                    Err(e) => {
                        return Err(e);
                    },
                }
            },
            None => {},
        }
        let raw = strs_chars(process_args);
        let ghost rv = raw.deep_view();
        let n = raw.len();
        let mut k: usize = 0;
        while k < n && !(chars_eq_str(&raw[k], "--profile") || chars_eq_str(&raw[k], "--profile-args"))
            invariant
                k <= n,
                n == raw.len(),
                rv == raw.deep_view(),
                forall|j: int| 0 <= j < k ==> !is_sentinel(#[trigger] rv[j]),
            decreases n - k,
        {
            assert(rv[k as int] == raw@[k as int]@);
            k = k + 1;
        }
        proof {
            if k < n {
                assert(rv[k as int] == raw@[k as int]@);
            }
            lemma_first_sentinel_found(rv, k as int);
        }
        if k < n {
            match Self::parse_from(&raw, k + 1) {
                Ok(p) => {
                    cli.merge(p);
                    return Ok(cli);
                },
                Err(e) => {
                    return Err(e);
                },
            }
        }
        if accept_raw_process_args && n > 0 {
            let p = Self::parse_from(&raw, 0);
            assert(rv.subrange(0, n as int) =~= rv);
            match p {
                Ok(p) => {
                    cli.merge(p);
                },
                Err(e) => {
                    return Err(e);
                },
            }
        }
        Ok(cli)
    }

    /// The options of a run whose arguments all parse.
    pub fn from_env_and_args(
        profile_args: Option<&str>,
        process_args: &[&str],
        accept_raw_process_args: bool,
    ) -> (r: Self)
        requires
            env_and_args_spec(
                opt_str_ref(profile_args),
                strs_view(process_args@),
                accept_raw_process_args,
            ) is Ok,
        ensures
            env_and_args_spec(
                opt_str_ref(profile_args),
                strs_view(process_args@),
                accept_raw_process_args,
            ) == Ok::<CliArgsModel, Seq<char>>(r@),
    {
        match Self::try_from_env_and_args(profile_args, process_args, accept_raw_process_args) {
            Ok(cli) => cli,
            Err(_) => {
                assert(false);
                Self::default()
            },
        }
    }
}

// ---------------------------------------------------------------------------
// Laws
// ---------------------------------------------------------------------------

/// Laying options over none, or none over options, changes nothing, and
/// laying three sets in turn does not depend on the grouping.
pub proof fn lemma_merge_monoid(a: CliArgsModel, b: CliArgsModel, c: CliArgsModel)
    ensures
        merge_spec(default_model(), a) == a,
        merge_spec(a, default_model()) == a,
        merge_spec(merge_spec(a, b), c) == merge_spec(a, merge_spec(b, c)),
{
}

/// An option given later wins over the same option given earlier.
pub proof fn lemma_merge_later_wins(earlier: CliArgsModel, later: CliArgsModel)
    ensures
        later.solver is Some ==> merge_spec(earlier, later).solver == later.solver,
        later.solvers is Some ==> merge_spec(earlier, later).solvers == later.solvers,
        later.scene is Some ==> merge_spec(earlier, later).scene == later.scene,
        later.dry_run is Some ==> merge_spec(earlier, later).dry_run == later.dry_run,
        later.dry_run_json is Some ==> merge_spec(earlier, later).dry_run_json
            == later.dry_run_json,
        later.list_solvers is Some ==> merge_spec(earlier, later).list_solvers
            == later.list_solvers,
        later.help is Some ==> merge_spec(earlier, later).help == later.help,
        later.output is Some ==> merge_spec(earlier, later).output == later.output,
        later.warmup is Some ==> merge_spec(earlier, later).warmup == later.warmup,
        later.measured is Some ==> merge_spec(earlier, later).measured == later.measured,
        later.calibration is Some ==> merge_spec(earlier, later).calibration
            == later.calibration,
        later.cg_iterations is Some ==> merge_spec(earlier, later).cg_iterations
            == later.cg_iterations,
        later.pressure_operator is Some ==> merge_spec(earlier, later).pressure_operator
            == later.pressure_operator,
{
}

/// Process arguments before the first sentinel never matter: the run has
/// the options it would have if the command line started at the sentinel.
pub proof fn lemma_arguments_before_sentinel_ignored(
    profile_args: Option<Seq<char>>,
    pre: Seq<Seq<char>>,
    sentinel: Seq<char>,
    post: Seq<Seq<char>>,
    accept_raw: bool,
)
    requires
        forall|j: int| 0 <= j < pre.len() ==> !is_sentinel(#[trigger] pre[j]),
        is_sentinel(sentinel),
    ensures
        env_and_args_spec(profile_args, pre + seq![sentinel] + post, accept_raw)
            == env_and_args_spec(profile_args, seq![sentinel] + post, accept_raw),
{
    let raw = pre + seq![sentinel] + post;
    let short = seq![sentinel] + post;
    assert forall|j: int| 0 <= j < pre.len() implies !is_sentinel(#[trigger] raw[j]) by {
        assert(raw[j] == pre[j]);
    }
    assert(raw[pre.len() as int] == sentinel);
    lemma_first_sentinel_found(raw, pre.len() as int);
    assert(short[0] == sentinel);
    lemma_first_sentinel_found(short, 0);
    assert(raw.subrange(pre.len() as int + 1, raw.len() as int) =~= post);
    assert(short.subrange(1, short.len() as int) =~= post);
}

/// Without a sentinel and without `accept_raw`, the process arguments are
/// ignored.
pub proof fn lemma_harness_arguments_need_sentinel(
    profile_args: Option<Seq<char>>,
    raw: Seq<Seq<char>>,
)
    requires
        forall|j: int| 0 <= j < raw.len() ==> !is_sentinel(#[trigger] raw[j]),
    ensures
        env_and_args_spec(profile_args, raw, false) == env_and_args_spec(
            profile_args,
            Seq::empty(),
            false,
        ),
{
    lemma_first_sentinel_found(raw, raw.len() as int);
}


/// The `key=value` name of an option.
pub open spec fn kwarg_name(o: CliOption) -> Seq<char> {
    match o {
        CliOption::Scene => "scene"@,
        CliOption::Solver => "solver"@,
        CliOption::Solvers => "solvers"@,
        CliOption::PressureOperator => "pressure_operator"@,
        CliOption::Warmup => "warmup"@,
        CliOption::Frames => "frames"@,
        CliOption::Calibration => "cal"@,
        CliOption::Output => "out"@,
        CliOption::CgIterations => "cg_iterations"@,
        CliOption::DryRun => "dry_run"@,
        CliOption::DryRunJson => "dry_run_json"@,
        CliOption::ListSolvers => "list_solvers"@,
        CliOption::Help => "help"@,
    }
}

/// Length and third character of every option spelling; spellings of
/// different options differ in one of them.
#[verifier::rlimit(50)]
proof fn lemma_flag_spellings()
    ensures
        "scene"@.len() == 5,
        "scene"@[2] == 'e',
        "--scene"@.len() == 7,
        "--scene"@[2] == 's',
        "solver"@.len() == 6,
        "solver"@[2] == 'l',
        "--solver"@.len() == 8,
        "--solver"@[2] == 's',
        "solvers"@.len() == 7,
        "solvers"@[2] == 'l',
        "--solvers"@.len() == 9,
        "--solvers"@[2] == 's',
        "pressure_operator"@.len() == 17,
        "pressure_operator"@[2] == 'e',
        "pressure-operator"@.len() == 17,
        "pressure-operator"@[2] == 'e',
        "operator"@.len() == 8,
        "operator"@[2] == 'e',
        "--pressure-operator"@.len() == 19,
        "--pressure-operator"@[2] == 'p',
        "--operator"@.len() == 10,
        "--operator"@[2] == 'o',
        "warmup"@.len() == 6,
        "warmup"@[2] == 'r',
        "--warmup"@.len() == 8,
        "--warmup"@[2] == 'w',
        "frames"@.len() == 6,
        "frames"@[2] == 'a',
        "measured"@.len() == 8,
        "measured"@[2] == 'a',
        "--frames"@.len() == 8,
        "--frames"@[2] == 'f',
        "--measured"@.len() == 10,
        "--measured"@[2] == 'm',
        "cal"@.len() == 3,
        "cal"@[2] == 'l',
        "calibration"@.len() == 11,
        "calibration"@[2] == 'l',
        "--cal"@.len() == 5,
        "--cal"@[2] == 'c',
        "--calibration"@.len() == 13,
        "--calibration"@[2] == 'c',
        "out"@.len() == 3,
        "out"@[2] == 't',
        "output"@.len() == 6,
        "output"@[2] == 't',
        "--out"@.len() == 5,
        "--out"@[2] == 'o',
        "--output"@.len() == 8,
        "--output"@[2] == 'o',
        "cg_iterations"@.len() == 13,
        "cg_iterations"@[2] == '_',
        "cg-iterations"@.len() == 13,
        "cg-iterations"@[2] == '-',
        "--cg-iterations"@.len() == 15,
        "--cg-iterations"@[2] == 'c',
        "dry_run"@.len() == 7,
        "dry_run"@[2] == 'y',
        "dry-run"@.len() == 7,
        "dry-run"@[2] == 'y',
        "--dry-run"@.len() == 9,
        "--dry-run"@[2] == 'd',
        "dry_run_json"@.len() == 12,
        "dry_run_json"@[2] == 'y',
        "dry-run-json"@.len() == 12,
        "dry-run-json"@[2] == 'y',
        "--dry-run-json"@.len() == 14,
        "--dry-run-json"@[2] == 'd',
        "list_solvers"@.len() == 12,
        "list_solvers"@[2] == 's',
        "list-solvers"@.len() == 12,
        "list-solvers"@[2] == 's',
        "--list-solvers"@.len() == 14,
        "--list-solvers"@[2] == 'l',
        "help"@.len() == 4,
        "help"@[2] == 'l',
        "--help"@.len() == 6,
        "--help"@[2] == 'h',
        "-h"@.len() == 2,
{
    reveal_strlit("scene");
    reveal_strlit("--scene");
    reveal_strlit("solver");
    reveal_strlit("--solver");
    reveal_strlit("solvers");
    reveal_strlit("--solvers");
    reveal_strlit("pressure_operator");
    reveal_strlit("pressure-operator");
    reveal_strlit("operator");
    reveal_strlit("--pressure-operator");
    reveal_strlit("--operator");
    reveal_strlit("warmup");
    reveal_strlit("--warmup");
    reveal_strlit("frames");
    reveal_strlit("measured");
    reveal_strlit("--frames");
    reveal_strlit("--measured");
    reveal_strlit("cal");
    reveal_strlit("calibration");
    reveal_strlit("--cal");
    reveal_strlit("--calibration");
    reveal_strlit("out");
    reveal_strlit("output");
    reveal_strlit("--out");
    reveal_strlit("--output");
    reveal_strlit("cg_iterations");
    reveal_strlit("cg-iterations");
    reveal_strlit("--cg-iterations");
    reveal_strlit("dry_run");
    reveal_strlit("dry-run");
    reveal_strlit("--dry-run");
    reveal_strlit("dry_run_json");
    reveal_strlit("dry-run-json");
    reveal_strlit("--dry-run-json");
    reveal_strlit("list_solvers");
    reveal_strlit("list-solvers");
    reveal_strlit("--list-solvers");
    reveal_strlit("help");
    reveal_strlit("--help");
    reveal_strlit("-h");
}

proof fn lemma_option_lookup(o: CliOption)
    ensures
        cli_option_spec(option_name(o)) == Some(o),
        cli_option_spec(kwarg_name(o)) == Some(o),
{
    lemma_flag_spellings();
    match o {
        CliOption::Scene => {},
        CliOption::Solver => {},
        CliOption::Solvers => {},
        CliOption::PressureOperator => {},
        CliOption::Warmup => {},
        CliOption::Frames => {},
        CliOption::Calibration => {},
        CliOption::Output => {},
        CliOption::CgIterations => {},
        CliOption::DryRun => {},
        CliOption::DryRunJson => {},
        CliOption::ListSolvers => {},
        CliOption::Help => {},
    }
}

proof fn lemma_option_names(o: CliOption)
    ensures
        cli_option_spec(option_name(o)) == Some(o),
        cli_option_spec(kwarg_name(o)) == Some(o),
        forall|j: int| 0 <= j < option_name(o).len() ==> option_name(o)[j] != '=',
        forall|j: int| 0 <= j < kwarg_name(o).len() ==> kwarg_name(o)[j] != '=',
{
    lemma_option_lookup(o);
    match o {
        CliOption::Scene => {
            reveal_strlit("--scene");
            reveal_strlit("scene");
        },
        CliOption::Solver => {
            reveal_strlit("--solver");
            reveal_strlit("solver");
        },
        CliOption::Solvers => {
            reveal_strlit("--solvers");
            reveal_strlit("solvers");
        },
        CliOption::PressureOperator => {
            reveal_strlit("--pressure-operator");
            reveal_strlit("pressure_operator");
        },
        CliOption::Warmup => {
            reveal_strlit("--warmup");
            reveal_strlit("warmup");
        },
        CliOption::Frames => {
            reveal_strlit("--frames");
            reveal_strlit("frames");
        },
        CliOption::Calibration => {
            reveal_strlit("--cal");
            reveal_strlit("cal");
        },
        CliOption::Output => {
            reveal_strlit("--out");
            reveal_strlit("out");
        },
        CliOption::CgIterations => {
            reveal_strlit("--cg-iterations");
            reveal_strlit("cg_iterations");
        },
        CliOption::DryRun => {
            reveal_strlit("--dry-run");
            reveal_strlit("dry_run");
        },
        CliOption::DryRunJson => {
            reveal_strlit("--dry-run-json");
            reveal_strlit("dry_run_json");
        },
        CliOption::ListSolvers => {
            reveal_strlit("--list-solvers");
            reveal_strlit("list_solvers");
        },
        CliOption::Help => {
            reveal_strlit("--help");
            reveal_strlit("help");
        },
    }
}

/// The three spellings of an option that takes a value, `--name value`,
/// `--name=value` and `key=value`, give the same options; so do the
/// `--name=value` and `key=value` spellings of a switch.
pub proof fn lemma_option_spellings_agree(o: CliOption, v: Seq<char>)
    ensures
        takes_value(o) ==> parse_args_spec(seq![option_name(o), v]) == parse_args_spec(
            seq![option_name(o) + seq!['='] + v],
        ),
        parse_args_spec(seq![option_name(o) + seq!['='] + v]) == parse_args_spec(
            seq![kwarg_name(o) + seq!['='] + v],
        ),
{
    lemma_option_names(o);
    crate::text::lemma_split_once_none(option_name(o), '=');
    crate::text::lemma_split_once_at(option_name(o), '=', v);
    crate::text::lemma_split_once_at(kwarg_name(o), '=', v);
    let two = seq![option_name(o), v];
    let one = seq![option_name(o) + seq!['='] + v];
    let kw = seq![kwarg_name(o) + seq!['='] + v];
    assert(two.subrange(2, 2) =~= Seq::<Seq<char>>::empty());
    assert(one.subrange(1, 1) =~= Seq::<Seq<char>>::empty());
    assert(kw.subrange(1, 1) =~= Seq::<Seq<char>>::empty());
}

} // verus!
