//! Integer side of the kettle inflow: how many particles a substep may
//! emit into a capped particle pool, and how the samples of one emission
//! batch are paired across the nozzle aperture.
use vstd::prelude::*;

use vstd::wrapping::u32_specs;

verus! {

/// A 32-bit integer mixing hash (xor-shift / multiply rounds).
pub open spec fn hash_u32_spec(value: u32) -> u32 {
    let a = value ^ (value >> 16);
    let b = u32_specs::wrapping_mul(a, 0x7feb_352d);
    let c = b ^ (b >> 15);
    let d = u32_specs::wrapping_mul(c, 0x846c_a68b);
    d ^ (d >> 16)
}

pub fn hash_u32(value: u32) -> (r: u32)
    ensures
        r == hash_u32_spec(value),
{
    let mut v = value;
    v = v ^ (v >> 16);
    v = v.wrapping_mul(0x7feb_352d);
    v = v ^ (v >> 15);
    v = v.wrapping_mul(0x846c_a68b);
    v ^ (v >> 16)
}

/// Particles emitted and dropped in one emission.
#[derive(Clone, Copy, Debug, PartialEq, Eq, Structural)]
pub struct EmissionResult {
    pub emitted: u32,
    pub dropped: u32,
}

/// Free particle slots once `total` are in use out of `max_particles`.
pub open spec fn available_slots(total: int, max_particles: int) -> int {
    if max_particles > total {
        max_particles - total
    } else {
        0
    }
}

/// Emits as many of the `requested` particles as the pool has room for and
/// drops the rest.
pub open spec fn emission_budget_spec(
    requested: u32,
    current_water: u32,
    current_bed: u32,
    max_particles: u32,
) -> EmissionResult {
    let available = available_slots(current_water + current_bed, max_particles as int);
    let emitted = if requested < available {
        requested as int
    } else {
        available
    };
    EmissionResult { emitted: emitted as u32, dropped: (requested - emitted) as u32 }
}

/// How many of `requested` new water particles fit next to `current_water`
/// water and `current_bed` bed particles in a pool of `max_particles`.
pub fn emission_budget(requested: u32, current_water: u32, current_bed: u32, max_particles: u32) -> (r: EmissionResult)
    requires
        current_water + current_bed <= u32::MAX,
    ensures
        r == emission_budget_spec(requested, current_water, current_bed, max_particles),
        r.emitted + r.dropped == requested,
        current_water + current_bed <= max_particles ==> current_water + current_bed + r.emitted
            <= max_particles,
{
    let total = current_water + current_bed;
    let available = max_particles.saturating_sub(total);
    let count = if requested < available {
        requested
    } else {
        available
    };
    if count == 0 {
        return EmissionResult { emitted: 0, dropped: requested };
    }
    EmissionResult { emitted: count, dropped: requested - count }
}

/// Where in the aperture one sample of an emission batch lands, as hashes:
/// the sample sits at the angle drawn from `angle_hash` and the radius drawn
/// from `radius_hash`, on the positive side of the nozzle axis or mirrored
/// through it.
#[derive(Clone, Copy, Debug, PartialEq, Eq, Structural)]
pub struct ApertureSample {
    pub angle_hash: u32,
    pub radius_hash: u32,
    pub positive_side: bool,
}

/// Index of a sample among the paired samples of its batch: an odd batch
/// keeps its first sample on the axis.
pub open spec fn paired_index(local_index: u32, batch_count: u32) -> int {
    if batch_count % 2 == 1 {
        local_index - 1
    } else {
        local_index as int
    }
}

/// The aperture sample of `local_index` in a batch of `batch_count` samples
/// seeded by `batch_seed`; `None` for the axis sample of an odd batch.
/// Consecutive paired samples share one key and lie on opposite sides.
pub open spec fn aperture_sample_spec(local_index: u32, batch_count: u32, batch_seed: u32) -> Option<ApertureSample> {
    if batch_count % 2 == 1 && local_index == 0 {
        None
    } else {
        let paired = paired_index(local_index, batch_count);
        let pair_index = (paired / 2) as u32;
        let key = u32_specs::wrapping_add(u32_specs::wrapping_mul(batch_seed, 0x9e37_79b9), pair_index);
        Some(
            ApertureSample {
                angle_hash: hash_u32_spec(key ^ 0x85eb_ca6b),
                radius_hash: hash_u32_spec(key ^ 0xc2b2_ae35),
                positive_side: paired % 2 == 0,
            },
        )
    }
}

pub fn aperture_sample(local_index: u32, batch_count: u32, batch_seed: u32) -> (r: Option<ApertureSample>)
    requires
        local_index < batch_count,
    ensures
        r == aperture_sample_spec(local_index, batch_count, batch_seed),
{
    if batch_count % 2 == 1 && local_index == 0 {
        return None;
    }
    let paired = if batch_count % 2 == 1 {
        local_index - 1
    } else {
        local_index
    };
    let pair_index = paired / 2;
    let pair_side = paired % 2;
    let sample_key = batch_seed.wrapping_mul(0x9e37_79b9).wrapping_add(pair_index);
    let angle_hash = hash_u32(sample_key ^ 0x85eb_ca6b);
    let radius_hash = hash_u32(sample_key ^ 0xc2b2_ae35);
    Some(ApertureSample { angle_hash, radius_hash, positive_side: pair_side == 0 })
}

/// Every off-axis sample on the positive side has a mirror partner right
/// after it in the same batch: same angle and radius, opposite side. So the
/// lateral offsets of a batch cancel.
pub proof fn lemma_aperture_samples_come_in_mirror_pairs(local_index: u32, batch_count: u32, batch_seed: u32)
    requires
        local_index < batch_count,
        aperture_sample_spec(local_index, batch_count, batch_seed) matches Some(s) && s.positive_side,
    ensures
        local_index + 1 < batch_count,
        aperture_sample_spec((local_index + 1) as u32, batch_count, batch_seed) matches Some(t) && t
            == (ApertureSample { positive_side: false, ..aperture_sample_spec(local_index, batch_count, batch_seed)->0 }),
{
    let paired = paired_index(local_index, batch_count);
    assert(paired % 2 == 0);
    if batch_count % 2 == 1 {
        assert(local_index + 1 < batch_count);
    } else {
        assert(local_index + 1 < batch_count);
    }
    let paired2 = paired_index((local_index + 1) as u32, batch_count);
    assert(paired2 == paired + 1);
    assert(paired2 / 2 == paired / 2);
}

/// The axis sample of an odd batch is the only sample without a partner.
pub proof fn lemma_only_odd_batches_have_an_axis_sample(local_index: u32, batch_count: u32, batch_seed: u32)
    requires
        local_index < batch_count,
    ensures
        aperture_sample_spec(local_index, batch_count, batch_seed) is None <==> (batch_count % 2 == 1
            && local_index == 0),
{
}

} // verus!
