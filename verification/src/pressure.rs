//! Pressure-projection solver catalog: which solver and operator a run uses,
//! how they are named on the command line, and which kernels each one runs.
use vstd::prelude::*;

use crate::text::{
    chars_eq_str, chars_to_string, lower, lower_chars, normalize, push_chars, push_str, str_chars,
    trim, trim_chars,
};

verus! {

/// The iterative solvers available for the pressure Poisson problem.
#[derive(Clone, Copy, Debug, PartialEq, Eq, Structural)]
pub enum PressureSolverKind {
    Rbgs,
    JacobiCg,
    SparseCg,
}

/// The discretisations of the pressure operator.
#[derive(Clone, Copy, Debug, PartialEq, Eq, Structural)]
pub enum PressureOperatorKind {
    Collocated,
    Staggered,
}

/// Accepted spellings of each pressure solver, after trimming and lowering.
pub open spec fn solver_kind_from_id(k: Seq<char>) -> Option<PressureSolverKind> {
    if k == "rbgs"@ || k == "mpm-rbgs"@ || k == "pressure-rbgs"@ {
        Some(PressureSolverKind::Rbgs)
    } else if k == "cg"@ || k == "jacobi-cg"@ || k == "mpm-cg"@ || k == "pressure-cg"@ {
        Some(PressureSolverKind::JacobiCg)
    } else if k == "sparse-cg"@ || k == "mpm-sparse-cg"@ || k == "pressure-sparse-cg"@ {
        Some(PressureSolverKind::SparseCg)
    } else {
        None
    }
}

pub open spec fn solver_kind_id(k: PressureSolverKind) -> Seq<char> {
    match k {
        PressureSolverKind::Rbgs => "rbgs"@,
        PressureSolverKind::JacobiCg => "jacobi-cg"@,
        PressureSolverKind::SparseCg => "sparse-cg"@,
    }
}

pub open spec fn unknown_solver_message(k: Seq<char>) -> Seq<char> {
    "unknown pressure solver '"@ + k + "'; available solvers: rbgs, jacobi-cg, sparse-cg"@
}

/// Outcome of parsing a pressure solver name.
pub open spec fn parse_solver_kind_spec(value: Seq<char>) -> Result<PressureSolverKind, Seq<char>> {
    let k = lower(trim(value));
    match solver_kind_from_id(k) {
        Some(kind) => Ok(kind),
        None => Err(unknown_solver_message(k)),
    }
}

pub open spec fn operator_kind_id(k: PressureOperatorKind) -> Seq<char> {
    match k {
        PressureOperatorKind::Collocated => "collocated"@,
        PressureOperatorKind::Staggered => "staggered"@,
    }
}

pub open spec fn staggered_refusal_message() -> Seq<char> {
    "pressure operator 'staggered' is known from codex/perf-60hz-tier1 but is not ported to the modular pressure boundary yet"@
}

pub open spec fn unknown_operator_message(k: Seq<char>) -> Seq<char> {
    "unknown pressure operator '"@ + k + "'; available operators: collocated"@
}

/// Outcome of parsing a pressure operator name: only the collocated
/// operator is runnable; `staggered` is known but refused.
pub open spec fn parse_operator_kind_spec(value: Seq<char>) -> Result<PressureOperatorKind, Seq<char>> {
    let k = lower(trim(value));
    if k == ""@ || k == "collocated"@ || k == "cell-centered"@ || k == "cell_centered"@ {
        Ok(PressureOperatorKind::Collocated)
    } else if k == "staggered"@ {
        Err(staggered_refusal_message())
    } else {
        Err(unknown_operator_message(k))
    }
}

pub open spec fn result_view<T>(r: Result<T, String>) -> Result<T, Seq<char>> {
    match r {
        Ok(x) => Ok(x),
        Err(e) => Err(e@),
    }
}

impl PressureSolverKind {
    /// Every registered pressure solver, in registration order.
    pub const ALL: [PressureSolverKind; 3] = [
        PressureSolverKind::Rbgs,
        PressureSolverKind::JacobiCg,
        PressureSolverKind::SparseCg,
    ];

    pub fn id(self) -> (r: &'static str)
        ensures
            r@ == solver_kind_id(self),
    {
        match self {
            PressureSolverKind::Rbgs => "rbgs",
            PressureSolverKind::JacobiCg => "jacobi-cg",
            PressureSolverKind::SparseCg => "sparse-cg",
        }
    }

    /// Looks up an already trimmed and lower-cased solver name.
    pub fn from_normalized(k: &Vec<char>) -> (r: Option<Self>)
        ensures
            r == solver_kind_from_id(k@),
    {
        if chars_eq_str(k, "rbgs") || chars_eq_str(k, "mpm-rbgs") || chars_eq_str(
            k,
            "pressure-rbgs",
        ) {
            Some(PressureSolverKind::Rbgs)
        } else if chars_eq_str(k, "cg") || chars_eq_str(k, "jacobi-cg") || chars_eq_str(
            k,
            "mpm-cg",
        ) || chars_eq_str(k, "pressure-cg") {
            Some(PressureSolverKind::JacobiCg)
        } else if chars_eq_str(k, "sparse-cg") || chars_eq_str(k, "mpm-sparse-cg")
            || chars_eq_str(k, "pressure-sparse-cg") {
            Some(PressureSolverKind::SparseCg)
        } else {
            None
        }
    }

    /// Parses a pressure solver name, ignoring surrounding whitespace and
    /// ASCII case.
    pub fn parse_id(value: &str) -> (r: Result<Self, String>)
        ensures
            result_view(r) == parse_solver_kind_spec(value@),
    {
        Self::parse_chars(&str_chars(value))
    }

    /// `parse_id` on a name already read into characters.
    pub fn parse_chars(value: &Vec<char>) -> (r: Result<Self, String>)
        ensures
            result_view(r) == parse_solver_kind_spec(value@),
    {
        let t = trim_chars(value);
        let k = lower_chars(&t);
        match Self::from_normalized(&k) {
            Some(kind) => Ok(kind),
            None => {
                let mut msg: Vec<char> = Vec::new();
                push_str(&mut msg, "unknown pressure solver '");
                push_chars(&mut msg, &k);
                push_str(&mut msg, "'; available solvers: rbgs, jacobi-cg, sparse-cg");
                Err(chars_to_string(&msg))
            },
        }
    }
}

impl std::str::FromStr for PressureSolverKind {
    type Err = String;

    fn from_str(value: &str) -> (r: Result<Self, String>)
        ensures
            result_view(r) == parse_solver_kind_spec(value@),
    {
        Self::parse_id(value)
    }
}

impl PressureOperatorKind {
    /// The operators that can run today.
    pub const ALL: [PressureOperatorKind; 1] = [PressureOperatorKind::Collocated];

    pub fn id(self) -> (r: &'static str)
        ensures
            r@ == operator_kind_id(self),
    {
        match self {
            PressureOperatorKind::Collocated => "collocated",
            PressureOperatorKind::Staggered => "staggered",
        }
    }

    /// Parses a pressure operator name, ignoring surrounding whitespace and
    /// ASCII case. The staggered operator is recognised but refused.
    pub fn parse_id(value: &str) -> (r: Result<Self, String>)
        ensures
            result_view(r) == parse_operator_kind_spec(value@),
    {
        proof {
            reveal_strlit("");
        }
        let k = normalize(value);
        if k.len() == 0 || chars_eq_str(&k, "collocated") || chars_eq_str(&k, "cell-centered")
            || chars_eq_str(&k, "cell_centered") {
            proof {
                if k.len() == 0 {
                    assert(k@ =~= ""@) by {
                        reveal_strlit("");
                    }
                }
            }
            Ok(PressureOperatorKind::Collocated)
        } else if chars_eq_str(&k, "staggered") {
            Err(
                chars_to_string(
                    &crate::text::str_chars(
                        "pressure operator 'staggered' is known from codex/perf-60hz-tier1 but is not ported to the modular pressure boundary yet",
                    ),
                ),
            )
        } else {
            proof {
                reveal_strlit("");
            }
            let mut msg: Vec<char> = Vec::new();
            push_str(&mut msg, "unknown pressure operator '");
            push_chars(&mut msg, &k);
            push_str(&mut msg, "'; available operators: collocated");
            Err(chars_to_string(&msg))
        }
    }
}

impl std::str::FromStr for PressureOperatorKind {
    type Err = String;

    fn from_str(value: &str) -> (r: Result<Self, String>)
        ensures
            result_view(r) == parse_operator_kind_spec(value@),
    {
        Self::parse_id(value)
    }
}

/// What one pressure solve is configured with.
#[derive(Clone, Copy, Debug, PartialEq, Eq, Structural)]
pub struct PressureContext {
    pub kind: PressureSolverKind,
    pub operator: PressureOperatorKind,
    pub cell_wg: u32,
    pub rbgs_pairs: u32,
    pub cg_iterations: u32,
}

/// The pipeline set whose classify, project and residual kernels a pressure
/// solve uses.
#[derive(Clone, Copy, Debug, PartialEq, Eq, Structural)]
pub enum PressureFamily {
    Rbgs,
    JacobiCg,
    StagedStaggered,
}

pub open spec fn pressure_family_spec(ctx: PressureContext) -> PressureFamily {
    match (ctx.operator, ctx.kind) {
        (PressureOperatorKind::Collocated, PressureSolverKind::Rbgs) => PressureFamily::Rbgs,
        (PressureOperatorKind::Collocated, _) => PressureFamily::JacobiCg,
        (PressureOperatorKind::Staggered, _) => PressureFamily::StagedStaggered,
    }
}

/// Solver iterations one substep runs: red/black pairs for Gauss-Seidel,
/// CG iterations otherwise.
pub open spec fn iterations_per_substep_spec(ctx: PressureContext) -> u32 {
    match ctx.kind {
        PressureSolverKind::Rbgs => ctx.rbgs_pairs,
        _ => ctx.cg_iterations,
    }
}

/// Timed compute passes one pressure solve contributes to a profiled substep.
pub open spec fn timestamp_scopes_spec(ctx: PressureContext) -> int {
    match ctx.kind {
        PressureSolverKind::Rbgs => 4,
        PressureSolverKind::JacobiCg => 4,
        PressureSolverKind::SparseCg => 6 + 4 * ctx.cg_iterations,
    }
}

/// The family whose classify, project and residual kernels serve `ctx`.
pub fn pressure_family(ctx: PressureContext) -> (r: PressureFamily)
    ensures
        r == pressure_family_spec(ctx),
{
    match (ctx.operator, ctx.kind) {
        (PressureOperatorKind::Collocated, PressureSolverKind::Rbgs) => PressureFamily::Rbgs,
        (PressureOperatorKind::Collocated, _) => PressureFamily::JacobiCg,
        (PressureOperatorKind::Staggered, _) => PressureFamily::StagedStaggered,
    }
}

pub fn iterations_per_substep(ctx: PressureContext) -> (r: u32)
    ensures
        r == iterations_per_substep_spec(ctx),
{
    match ctx.kind {
        PressureSolverKind::Rbgs => ctx.rbgs_pairs,
        _ => ctx.cg_iterations,
    }
}

/// Timed scopes of one pressure solve: classify, solve, project and residual
/// for the dense solvers; classify, init, finalize, warm start, four kernels
/// per CG iteration, project and residual for the sparse one.
pub fn estimated_timestamp_scopes(ctx: PressureContext) -> (r: u32)
    requires
        timestamp_scopes_spec(ctx) <= u32::MAX,
    ensures
        r == timestamp_scopes_spec(ctx),
{
    match ctx.kind {
        PressureSolverKind::Rbgs => 4,
        PressureSolverKind::JacobiCg => 4,
        PressureSolverKind::SparseCg => 6 + 4 * ctx.cg_iterations,
    }
}

// ---------------------------------------------------------------------------
// Laws
// ---------------------------------------------------------------------------

/// Parsing the id of a pressure solver gives that solver back.
pub proof fn lemma_solver_kind_id_round_trip(k: PressureSolverKind)
    ensures
        parse_solver_kind_spec(solver_kind_id(k)) == Ok::<PressureSolverKind, Seq<char>>(k),
{
    reveal_strlit("rbgs");
    reveal_strlit("jacobi-cg");
    reveal_strlit("sparse-cg");
    reveal_strlit("mpm-rbgs");
    reveal_strlit("pressure-rbgs");
    reveal_strlit("cg");
    reveal_strlit("mpm-cg");
    reveal_strlit("pressure-cg");
    reveal_strlit("mpm-sparse-cg");
    reveal_strlit("pressure-sparse-cg");
    let s = solver_kind_id(k);
    crate::text::lemma_trim_plain(s);
    crate::text::lemma_lower_plain(s);
}

/// Parsing the id of the collocated operator gives it back; the staggered
/// operator's id is refused.
pub proof fn lemma_operator_kind_id_round_trip()
    ensures
        parse_operator_kind_spec(operator_kind_id(PressureOperatorKind::Collocated)) == Ok::<
            PressureOperatorKind,
            Seq<char>,
        >(PressureOperatorKind::Collocated),
        parse_operator_kind_spec(operator_kind_id(PressureOperatorKind::Staggered)) is Err,
{
    reveal_strlit("collocated");
    reveal_strlit("staggered");
    reveal_strlit("");
    reveal_strlit("cell-centered");
    reveal_strlit("cell_centered");
    let s = operator_kind_id(PressureOperatorKind::Collocated);
    let t = operator_kind_id(PressureOperatorKind::Staggered);
    crate::text::lemma_trim_plain(s);
    crate::text::lemma_trim_plain(t);
    crate::text::lemma_lower_plain(s);
    crate::text::lemma_lower_plain(t);
}

} // verus!
