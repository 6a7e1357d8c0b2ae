//! The integer decisions of a simulation frame: how the particle pool and
//! its drop counters change as each substep emits water, and which passes
//! a substep schedules for the particles it has.
use vstd::prelude::*;

use crate::inflow::{emission_budget, emission_budget_spec, EmissionResult};
use crate::pressure::PressureContext;
use crate::scene::MpmSettings;
use crate::schedule::{
    encode_mpm_substep_schedule, substep_dispatch_sizes, substep_dispatch_sizes_spec,
    substep_schedule_spec, total_cells_spec, MpmDispatchSizes, MpmScheduleOp,
};

verus! {

/// Particles in the pool and particles dropped for lack of room.
#[derive(Clone, Copy, Debug, PartialEq, Eq, Structural)]
pub struct ParticleCounts {
    pub num_water: u32,
    pub num_bed: u32,
    /// Dropped since the current frame began.
    pub frame_dropped: u32,
    /// Dropped since the simulation began.
    pub total_dropped: u32,
}

/// Seeded water particles that fit next to `num_bed` bed particles in a
/// pool of `max_particles`.
pub open spec fn seeded_water_kept(seeded: int, num_bed: u32, max_particles: u32) -> u32 {
    let available = if max_particles > num_bed {
        max_particles - num_bed
    } else {
        0
    };
    if seeded < available {
        seeded as u32
    } else {
        available as u32
    }
}

/// The pool after an emission that emitted and dropped as `r` says.
pub open spec fn emitted_counts(c: ParticleCounts, r: EmissionResult) -> ParticleCounts {
    ParticleCounts {
        num_water: (c.num_water + r.emitted) as u32,
        num_bed: c.num_bed,
        frame_dropped: (c.frame_dropped + r.dropped) as u32,
        total_dropped: (c.total_dropped + r.dropped) as u32,
    }
}

/// The pool after `seeded` particles of water were pre-placed in it.
pub open spec fn seeded_counts(c: ParticleCounts, seeded: int, max_particles: u32) -> ParticleCounts {
    ParticleCounts {
        num_water: seeded_water_kept(seeded, c.num_bed, max_particles),
        num_bed: c.num_bed,
        frame_dropped: 0,
        total_dropped: 0,
    }
}

/// The pool holds no more particles than its capacity.
pub open spec fn pool_within(c: ParticleCounts, max_particles: u32) -> bool {
    c.num_water + c.num_bed <= max_particles
}

/// The drops of the current frame are among the drops of the run.
pub open spec fn drops_ordered(c: ParticleCounts) -> bool {
    c.frame_dropped <= c.total_dropped
}

impl ParticleCounts {
    /// An empty pool holding `num_bed` bed particles.
    pub fn with_bed(num_bed: u32) -> (r: Self)
        ensures
            r == (ParticleCounts { num_water: 0, num_bed, frame_dropped: 0, total_dropped: 0 }),
    {
        ParticleCounts { num_water: 0, num_bed, frame_dropped: 0, total_dropped: 0 }
    }

    /// Empties the pool: no water, no bed and no drops.
    pub fn reset(&mut self)
        ensures
            *final(self) == (ParticleCounts {
                num_water: 0,
                num_bed: 0,
                frame_dropped: 0,
                total_dropped: 0,
            }),
    {
        self.num_water = 0;
        self.num_bed = 0;
        self.frame_dropped = 0;
        self.total_dropped = 0;
    }

    /// Records a freshly laid-out bed of `count` particles; an empty layout
    /// leaves the pool as it was.
    pub fn place_bed(&mut self, count: u32)
        ensures
            *final(self) == if count == 0 {
                *old(self)
            } else {
                ParticleCounts { num_bed: count, ..*old(self) }
            },
    {
        if count > 0 {
            self.num_bed = count;
        }
    }

    /// Replaces the water with `seeded` pre-placed particles, of which only
    /// those that fit beside the bed are kept; the drop counters restart.
    /// Returns how many were kept.
    pub fn seed_water(&mut self, seeded: usize, max_particles: u32) -> (kept: u32)
        ensures
            kept == seeded_water_kept(seeded as int, old(self).num_bed, max_particles),
            *final(self) == seeded_counts(*old(self), seeded as int, max_particles),
    {
        let available = max_particles.saturating_sub(self.num_bed);
        let kept = if seeded < available as usize {
            seeded as u32
        } else {
            available
        };
        self.num_water = kept;
        self.frame_dropped = 0;
        self.total_dropped = 0;
        kept
    }

    /// Starts a frame: its drop counter restarts from zero.
    pub fn begin_frame(&mut self)
        ensures
            *final(self) == (ParticleCounts { frame_dropped: 0, ..*old(self) }),
    {
        self.frame_dropped = 0;
    }

    /// Emits up to `requested` water particles into a pool of
    /// `max_particles`: the emitted ones join the water, the rest are counted
    /// as dropped for the frame and for the run.
    pub fn emit(&mut self, requested: u32, max_particles: u32) -> (r: EmissionResult)
        requires
            old(self).num_water + old(self).num_bed <= u32::MAX,
            old(self).frame_dropped + emission_budget_spec(
                requested,
                old(self).num_water,
                old(self).num_bed,
                max_particles,
            ).dropped <= u32::MAX,
            old(self).total_dropped + emission_budget_spec(
                requested,
                old(self).num_water,
                old(self).num_bed,
                max_particles,
            ).dropped <= u32::MAX,
        ensures
            r == emission_budget_spec(
                requested,
                old(self).num_water,
                old(self).num_bed,
                max_particles,
            ),
            *final(self) == emitted_counts(*old(self), r),
    {
        let r = emission_budget(requested, self.num_water, self.num_bed, max_particles);
        self.frame_dropped = self.frame_dropped + r.dropped;
        self.total_dropped = self.total_dropped + r.dropped;
        self.num_water = self.num_water + r.emitted;
        r
    }
}

/// The pressure solve of a substep with the given red/black pair budget.
pub open spec fn substep_pressure_context(settings: MpmSettings, cell_wg: u32, rbgs_pairs: u32) -> PressureContext {
    PressureContext {
        kind: settings.pressure_solver,
        operator: settings.pressure_operator,
        cell_wg,
        rbgs_pairs,
        cg_iterations: settings.pressure_cg_iterations,
    }
}

/// The schedule of one substep of a run with `settings` and the given
/// particles: dispatch sizes from the grid and particle counts, and the
/// run's pressure solve with `rbgs_pairs` red/black pairs.
pub open spec fn substep_ops_spec(
    settings: MpmSettings,
    counts: ParticleCounts,
    rbgs_pairs: u32,
) -> Seq<MpmScheduleOp> {
    let d = substep_dispatch_sizes_spec(settings.grid_dims, counts.num_water, counts.num_bed);
    substep_schedule_spec(d, substep_pressure_context(settings, d.cell_wg, rbgs_pairs))
}

/// The passes of one substep of a run with `settings` once the substep's
/// water has been emitted into `counts`.
pub fn substep_ops(settings: &MpmSettings, counts: &ParticleCounts, rbgs_pairs: u32) -> (r: Vec<MpmScheduleOp>)
    requires
        total_cells_spec(settings.grid_dims) <= u32::MAX,
        counts.num_water + counts.num_bed <= u32::MAX,
    ensures
        r@ == substep_ops_spec(*settings, *counts, rbgs_pairs),
{
    let dispatch = substep_dispatch_sizes(settings.grid_dims, counts.num_water, counts.num_bed);
    let ctx = PressureContext {
        kind: settings.pressure_solver,
        operator: settings.pressure_operator,
        cell_wg: dispatch.cell_wg,
        rbgs_pairs,
        cg_iterations: settings.pressure_cg_iterations,
    };
    encode_mpm_substep_schedule(dispatch, ctx)
}

/// Red/black pairs a substep runs at the least: the configured count, and
/// never fewer than one.
pub open spec fn rbgs_pair_floor(configured: u32) -> int {
    if configured == 0 {
        1
    } else {
        configured as int
    }
}

/// Pairs the residual adaptation may add on top of the floor: up to the
/// adaptive ceiling, which never lies below the floor.
pub open spec fn rbgs_pair_headroom_spec(configured: u32, max_pairs: u32) -> int {
    if max_pairs as int > rbgs_pair_floor(configured) {
        max_pairs - rbgs_pair_floor(configured)
    } else {
        0
    }
}

/// Pairs the residual adaptation may add on top of the configured count.
pub fn rbgs_pair_headroom(configured: u32, max_pairs: u32) -> (r: u32)
    ensures
        r == rbgs_pair_headroom_spec(configured, max_pairs),
{
    let base: u32 = if configured == 0 {
        1
    } else {
        configured
    };
    if max_pairs > base {
        max_pairs - base
    } else {
        0
    }
}

/// Pairs a substep runs: the floor, plus the `extra` pairs that the last
/// projection residual asked for (`None` where it was on target or not
/// measured), cut to the headroom.
pub open spec fn rbgs_pairs_for_substep_spec(configured: u32, max_pairs: u32, extra: Option<u32>) -> int {
    let headroom = rbgs_pair_headroom_spec(configured, max_pairs);
    rbgs_pair_floor(configured) + match extra {
        None => 0,
        Some(e) => if (e as int) < headroom {
            e as int
        } else {
            headroom
        },
    }
}

/// Red/black pairs of the next substep: the configured count, raised by
/// the residual adaptation's `extra` pairs towards the adaptive ceiling.
pub fn rbgs_pairs_for_substep(configured: u32, max_pairs: u32, extra: Option<u32>) -> (r: u32)
    ensures
        r == rbgs_pairs_for_substep_spec(configured, max_pairs, extra),
        rbgs_pair_floor(configured) <= r,
        r <= rbgs_pair_floor(configured) + rbgs_pair_headroom_spec(configured, max_pairs),
        extra is None ==> r == rbgs_pair_floor(configured),
{
    let base: u32 = if configured == 0 {
        1
    } else {
        configured
    };
    let headroom = rbgs_pair_headroom(configured, max_pairs);
    match extra {
        None => base,
        Some(e) => if e < headroom {
            base + e
        } else {
            base + headroom
        },
    }
}

/// What one substep of a frame does: how its emission went, how many
/// red/black pairs it runs, the workgroup counts of its passes, its pressure
/// solve and the passes themselves.
#[derive(Clone, Debug)]
pub struct SubstepPlan {
    pub emission: EmissionResult,
    pub rbgs_pairs: u32,
    pub dispatch: MpmDispatchSizes,
    pub pressure: PressureContext,
    pub ops: Vec<MpmScheduleOp>,
}

/// Plans one substep of a run with `settings`: `requested` particles of
/// water are emitted into `counts` first, then the pair budget is raised by
/// `extra_pairs` of residual adaptation, and the passes are scheduled for
/// the particles the pool now holds.
pub fn plan_substep(
    settings: &MpmSettings,
    counts: &mut ParticleCounts,
    requested: u32,
    extra_pairs: Option<u32>,
) -> (r: SubstepPlan)
    requires
        total_cells_spec(settings.grid_dims) <= u32::MAX,
        old(counts).num_water + old(counts).num_bed <= u32::MAX,
        old(counts).frame_dropped + emission_budget_spec(
            requested,
            old(counts).num_water,
            old(counts).num_bed,
            settings.max_particles,
        ).dropped <= u32::MAX,
        old(counts).total_dropped + emission_budget_spec(
            requested,
            old(counts).num_water,
            old(counts).num_bed,
            settings.max_particles,
        ).dropped <= u32::MAX,
    ensures
        r.emission == emission_budget_spec(
            requested,
            old(counts).num_water,
            old(counts).num_bed,
            settings.max_particles,
        ),
        *final(counts) == emitted_counts(*old(counts), r.emission),
        r.rbgs_pairs == rbgs_pairs_for_substep_spec(
            settings.pressure_rbgs_pairs,
            settings.pressure_rbgs_max_pairs,
            extra_pairs,
        ),
        r.dispatch == substep_dispatch_sizes_spec(
            settings.grid_dims,
            final(counts).num_water,
            final(counts).num_bed,
        ),
        r.pressure == substep_pressure_context(*settings, r.dispatch.cell_wg, r.rbgs_pairs),
        r.ops@ == substep_ops_spec(*settings, *final(counts), r.rbgs_pairs),
{
    let emission = counts.emit(requested, settings.max_particles);
    let rbgs_pairs = rbgs_pairs_for_substep(
        settings.pressure_rbgs_pairs,
        settings.pressure_rbgs_max_pairs,
        extra_pairs,
    );
    let dispatch = substep_dispatch_sizes(settings.grid_dims, counts.num_water, counts.num_bed);
    let pressure = PressureContext {
        kind: settings.pressure_solver,
        operator: settings.pressure_operator,
        cell_wg: dispatch.cell_wg,
        rbgs_pairs,
        cg_iterations: settings.pressure_cg_iterations,
    };
    let ops = encode_mpm_substep_schedule(dispatch, pressure);
    SubstepPlan { emission, rbgs_pairs, dispatch, pressure, ops }
}

/// However much water is requested, a pool that starts within its capacity
/// stays within it, and every requested particle is either emitted or
/// counted as dropped.
pub proof fn lemma_emission_keeps_pool_within_capacity(
    counts: ParticleCounts,
    requested: u32,
    max_particles: u32,
)
    requires
        pool_within(counts, max_particles),
    ensures
        ({
            let r = emission_budget_spec(
                requested,
                counts.num_water,
                counts.num_bed,
                max_particles,
            );
            &&& pool_within(emitted_counts(counts, r), max_particles)
            &&& r.emitted + r.dropped == requested
            &&& (counts.num_water + counts.num_bed + requested <= max_particles ==> r.dropped
                == 0)
        }),
{
}

/// Every change of the pool keeps the frame's drops among the run's drops,
/// and every change but laying out a new bed keeps a pool that fits its
/// capacity within it: emitting, starting a frame, seeding water and
/// emptying the pool.
pub proof fn lemma_pool_changes_keep_counts_consistent(
    c: ParticleCounts,
    requested: u32,
    seeded: int,
    bed: u32,
    max_particles: u32,
)
    requires
        drops_ordered(c),
        seeded >= 0,
    ensures
        ({
            let r = emission_budget_spec(requested, c.num_water, c.num_bed, max_particles);
            let emitted = emitted_counts(c, r);
            let fresh = ParticleCounts { frame_dropped: 0, ..c };
            let seeded_pool = seeded_counts(c, seeded, max_particles);
            let empty = ParticleCounts {
                num_water: 0,
                num_bed: 0,
                frame_dropped: 0,
                total_dropped: 0,
            };
            let bedded = if bed == 0 {
                c
            } else {
                ParticleCounts { num_bed: bed, ..c }
            };
            &&& (c.total_dropped + r.dropped <= u32::MAX ==> drops_ordered(emitted))
            &&& drops_ordered(fresh)
            &&& drops_ordered(seeded_pool)
            &&& drops_ordered(empty)
            &&& drops_ordered(bedded)
            &&& (pool_within(c, max_particles) ==> {
                &&& pool_within(emitted, max_particles)
                &&& pool_within(fresh, max_particles)
                &&& pool_within(empty, max_particles)
            })
            &&& (c.num_bed <= max_particles ==> pool_within(seeded_pool, max_particles))
        }),
{
}

} // verus!
