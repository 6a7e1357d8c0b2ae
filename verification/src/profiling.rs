//! The solver catalog of the shipped profiler: which solvers a profiling run
//! may request, how a request is parsed, and what a report records about the
//! run it belongs to.
use vstd::prelude::*;

use crate::pressure::result_view;
use crate::text::{
    chars_eq_str, chars_to_string, eq_ignore_case, lower, normalize, push_chars, push_str,
    split_chars, split_on, str_chars, trim, trim_chars,
};

verus! {

/// A solver the shipped profiler can run.
#[derive(Clone, Copy, Debug, PartialEq, Eq, Structural)]
pub enum SolverSpec {
    Mpm,
}

pub open spec fn solver_spec_id(s: SolverSpec) -> Seq<char> {
    match s {
        SolverSpec::Mpm => "mpm"@,
    }
}

pub open spec fn unknown_solver_message(k: Seq<char>) -> Seq<char> {
    "unknown profiler solver '"@ + k + "'; available solvers: mpm"@
}

/// Outcome of parsing one solver name: empty, `mpm`, `mpm:rbgs` and `rbgs`
/// name the MPM solver, ignoring surrounding whitespace and ASCII case.
pub open spec fn parse_solver_spec_spec(value: Seq<char>) -> Result<SolverSpec, Seq<char>> {
    let k = lower(trim(value));
    if k == ""@ || k == "mpm"@ || k == "mpm:rbgs"@ || k == "rbgs"@ {
        Ok(SolverSpec::Mpm)
    } else {
        Err(unknown_solver_message(k))
    }
}

/// Parses the comma-separated pieces in order; blank pieces are skipped and
/// the first piece that does not parse decides the error.
pub open spec fn parse_spec_list(parts: Seq<Seq<char>>) -> Result<Seq<SolverSpec>, Seq<char>>
    decreases parts.len(),
{
    if parts.len() == 0 {
        Ok(Seq::empty())
    } else {
        match parse_spec_list(parts.drop_last()) {
            Err(e) => Err(e),
            Ok(done) => {
                let p = trim(parts.last());
                if p.len() == 0 {
                    Ok(done)
                } else {
                    match parse_solver_spec_spec(p) {
                        Ok(s) => Ok(done.push(s)),
                        Err(e) => Err(e),
                    }
                }
            },
        }
    }
}

/// `all` (in any ASCII case) selects every runnable solver; otherwise the
/// value is a comma-separated list of solver names.
pub open spec fn parse_solver_specs_spec(value: Seq<char>) -> Result<Seq<SolverSpec>, Seq<char>> {
    if lower(trim(value)) == "all"@ {
        Ok(seq![SolverSpec::Mpm])
    } else {
        parse_spec_list(split_on(value, ','))
    }
}

pub open spec fn specs_result_view(r: Result<Vec<SolverSpec>, String>) -> Result<Seq<SolverSpec>, Seq<char>> {
    match r {
        Ok(v) => Ok(v@),
        Err(e) => Err(e@),
    }
}

impl SolverSpec {
    pub fn id(self) -> (r: &'static str)
        ensures
            r@ == solver_spec_id(self),
    {
        match self {
            SolverSpec::Mpm => "mpm",
        }
    }

    /// Every solver the profiler can run, in order.
    pub fn runnable_specs() -> (r: Vec<SolverSpec>)
        ensures
            r@ == seq![SolverSpec::Mpm],
    {
        let mut v: Vec<SolverSpec> = Vec::new();
        v.push(SolverSpec::Mpm);
        v
    }

    /// Parses one solver name.
    pub fn parse_id(value: &str) -> (r: Result<SolverSpec, String>)
        ensures
            result_view(r) == parse_solver_spec_spec(value@),
    {
        proof {
            reveal_strlit("");
        }
        let k = normalize(value);
        if k.len() == 0 || chars_eq_str(&k, "mpm") || chars_eq_str(&k, "mpm:rbgs")
            || chars_eq_str(&k, "rbgs") {
            proof {
                if k.len() == 0 {
                    assert(k@ =~= ""@);
                }
            }
            Ok(SolverSpec::Mpm)
        } else {
            let mut msg: Vec<char> = Vec::new();
            push_str(&mut msg, "unknown profiler solver '");
            push_chars(&mut msg, &k);
            push_str(&mut msg, "'; available solvers: mpm");
            Err(chars_to_string(&msg))
        }
    }
}

impl std::str::FromStr for SolverSpec {
    type Err = String;

    fn from_str(value: &str) -> (r: Result<Self, String>)
        ensures
            result_view(r) == parse_solver_spec_spec(value@),
    {
        Self::parse_id(value)
    }
}

/// Parses a list of profiler solvers.
pub fn parse_solver_specs(value: &str) -> (r: Result<Vec<SolverSpec>, String>)
    ensures
        specs_result_view(r) == parse_solver_specs_spec(value@),
{
    proof {
        reveal_strlit("all");
    }
    let chars = str_chars(value);
    let t = trim_chars(&chars);
    if eq_ignore_case(&t, "all") {
        assert(lower("all"@) =~= "all"@);
        return Ok(SolverSpec::runnable_specs());
    }
    assert(lower("all"@) =~= "all"@);
    let parts = split_chars(&chars, ',');
    let mut out: Vec<SolverSpec> = Vec::new();
    let mut i: usize = 0;
    assert(parts.deep_view().subrange(0, 0) =~= Seq::<Seq<char>>::empty());
    while i < parts.len()
        invariant
            i <= parts.len(),
            parts.deep_view() == split_on(value@, ','),
            lower(trim(value@)) != "all"@,
            parse_spec_list(parts.deep_view().subrange(0, i as int)) == Ok::<
                Seq<SolverSpec>,
                Seq<char>,
            >(out@),
        decreases parts.len() - i,
    {
        let ghost pre = parts.deep_view().subrange(0, i as int);
        let ghost next = parts.deep_view().subrange(0, i + 1);
        assert(next.drop_last() =~= pre);
        assert(next.last() == parts@[i as int]@);
        let piece = trim_chars(&parts[i]);
        if piece.len() > 0 {
            let piece_str = chars_to_string(&piece);
            match SolverSpec::parse_id(piece_str.as_str()) {
                Ok(s) => {
                    out.push(s);
                },
                Err(e) => {
                    assert(parse_spec_list(next) == Err::<Seq<SolverSpec>, Seq<char>>(e@));
                    assert(parse_spec_list(parts.deep_view()) == Err::<Seq<SolverSpec>, Seq<char>>(
                        e@,
                    )) by {
                        lemma_parse_spec_list_err_sticks(parts.deep_view(), i + 1);
                    }
                    return Err(e);
                },
            }
        }
        i = i + 1;
    }
    assert(parts.deep_view().subrange(0, parts.len() as int) =~= parts.deep_view());
    Ok(out)
}

proof fn lemma_parse_spec_list_err_sticks(parts: Seq<Seq<char>>, i: int)
    requires
        0 <= i <= parts.len(),
        parse_spec_list(parts.subrange(0, i)) is Err,
    ensures
        parse_spec_list(parts) == parse_spec_list(parts.subrange(0, i)),
    decreases parts.len() - i,
{
    if i < parts.len() {
        assert(parts.subrange(0, i + 1).drop_last() =~= parts.subrange(0, i));
        lemma_parse_spec_list_err_sticks(parts, i + 1);
    } else {
        assert(parts.subrange(0, i) =~= parts);
    }
}

/// The text printed for `--list-solvers`.
pub open spec fn solver_list_summary_spec() -> Seq<char> {
    "available profiler solvers:\n  mpm\n  all\n"@
}

/// Lists the runnable solvers, one per line, followed by `all`.
pub fn solver_list_summary() -> (r: String)
    ensures
        r@ == solver_list_summary_spec(),
{
    proof {
        reveal_strlit("available profiler solvers:\n  mpm\n  all\n");
        reveal_strlit("available profiler solvers:\n");
        reveal_strlit("  ");
        reveal_strlit("mpm");
        reveal_strlit("\n");
        reveal_strlit("  all\n");
    }
    let mut out: Vec<char> = Vec::new();
    push_str(&mut out, "available profiler solvers:\n");
    let specs = SolverSpec::runnable_specs();
    push_str(&mut out, "  ");
    push_str(&mut out, specs[0].id());
    push_str(&mut out, "\n");
    push_str(&mut out, "  all\n");
    assert(out@ =~= solver_list_summary_spec());
    chars_to_string(&out)
}

/// What a profile report records about the run it belongs to.
#[derive(Clone, Debug)]
pub struct SolverRunMetadata {
    pub requested: Vec<String>,
    pub current: String,
    pub ordinal: usize,
    pub count: usize,
    pub multiple_outputs: bool,
}

pub open spec fn strings_view(v: Seq<String>) -> Seq<Seq<char>> {
    v.map_values(|s: String| s@)
}

/// One-based position of the first `x` in `s`, or 1 when `x` is absent.
pub open spec fn ordinal_of<A>(s: Seq<A>, x: A) -> nat
    decreases s.len(),
{
    if s.len() == 0 {
        1
    } else if !s.drop_last().contains(x) && s.last() == x {
        s.len()
    } else {
        ordinal_of(s.drop_last(), x)
    }
}

/// Records the ids of the requested solvers, the current one, its one-based
/// position in the request (1 when absent), the request size and whether the
/// run writes one output per solver.
pub fn solver_run_metadata(solvers: &[SolverSpec], current: SolverSpec) -> (r: SolverRunMetadata)
    ensures
        strings_view(r.requested@) == solvers@.map_values(|s: SolverSpec| solver_spec_id(s)),
        r.current@ == solver_spec_id(current),
        r.ordinal == ordinal_of(
            solvers@.map_values(|s: SolverSpec| solver_spec_id(s)),
            solver_spec_id(current),
        ),
        r.count == solvers@.len(),
        r.multiple_outputs == (solvers@.len() > 1),
{
    let ghost ids = solvers@.map_values(|s: SolverSpec| solver_spec_id(s));
    let mut requested: Vec<String> = Vec::new();
    let current_chars = str_chars(current.id());
    let mut ordinal: usize = 1;
    let mut found = false;
    let mut i: usize = 0;
    while i < solvers.len()
        invariant
            i <= solvers@.len(),
            ids == solvers@.map_values(|s: SolverSpec| solver_spec_id(s)),
            current_chars@ == solver_spec_id(current),
            strings_view(requested@) == ids.subrange(0, i as int),
            found == ids.subrange(0, i as int).contains(solver_spec_id(current)),
            ordinal == ordinal_of(ids.subrange(0, i as int), solver_spec_id(current)),
            ordinal <= i + 1,
        decreases solvers@.len() - i,
    {
        let id_chars = str_chars(solvers[i].id());
        let ghost pre = ids.subrange(0, i as int);
        let ghost next = ids.subrange(0, i + 1);
        assert(next.drop_last() =~= pre);
        assert(next.last() == id_chars@);
        let same = crate::text::chars_eq(&id_chars, &current_chars);
        if same && !found {
            ordinal = i + 1;
        }
        proof {
            if !found && !same {
                assert(!next.contains(solver_spec_id(current))) by {
                    if next.contains(solver_spec_id(current)) {
                        let k = choose|k: int| 0 <= k < next.len() && next[k] == solver_spec_id(current);
                        if k < i {
                            assert(pre[k] == next[k]);
                        }
                    }
                }
            }
            if same {
                assert(next[i as int] == solver_spec_id(current));
            }
            if found {
                let k = choose|k: int| 0 <= k < pre.len() && pre[k] == solver_spec_id(current);
                assert(next[k] == pre[k]);
            }
        }
        found = found || same;
        let ghost before = requested@;
        requested.push(chars_to_string(&id_chars));
        assert(strings_view(requested@) =~= strings_view(before).push(id_chars@));
        i = i + 1;
    }
    assert(ids.subrange(0, solvers@.len() as int) =~= ids);
    let count = solvers.len();
    SolverRunMetadata {
        requested,
        current: chars_to_string(&current_chars),
        ordinal,
        count,
        multiple_outputs: count > 1,
    }
}

/// Whether an environment flag value means "on": exactly `1`, `true`,
/// `TRUE`, `yes` or `YES`; an unset variable is off.
pub open spec fn env_flag_spec(value: Option<Seq<char>>) -> bool {
    match value {
        Some(v) => v == "1"@ || v == "true"@ || v == "TRUE"@ || v == "yes"@ || v == "YES"@,
        None => false,
    }
}

pub fn env_flag_value(value: Option<&str>) -> (r: bool)
    ensures
        r == env_flag_spec(
            match value {
                Some(v) => Some(v@),
                None => None,
            },
        ),
{
    match value {
        Some(v) => {
            let c = str_chars(v);
            chars_eq_str(&c, "1") || chars_eq_str(&c, "true") || chars_eq_str(&c, "TRUE")
                || chars_eq_str(&c, "yes") || chars_eq_str(&c, "YES")
        },
        None => false,
    }
}

/// Parsing the id of a solver gives that solver back.
pub proof fn lemma_solver_spec_id_round_trip(s: SolverSpec)
    ensures
        parse_solver_spec_spec(solver_spec_id(s)) == Ok::<SolverSpec, Seq<char>>(s),
{
    reveal_strlit("mpm");
    let id = solver_spec_id(s);
    crate::text::lemma_trim_plain(id);
    crate::text::lemma_lower_plain(id);
}

} // verus!
