//! Stateful physical process simulator: two independent generating units ramp
//! toward their target setpoints with first-order inertia and noise, and a
//! dependent auxiliary unit tracks a fixed ratio of their combined power with
//! slower inertia of its own. Every variable is clamped to its physical range
//! as the last step of every tick, so published values never leave range.
//!
//! All values are milli-units (milli-megawatts): the lag fractions 10%, 8%
//! and the 65% coupling ratio are exact integer computations.

use vstd::prelude::*;

use rand::Rng;

use crate::telemetry::{Measurement, SampleSource, TelemetrySample};

verus! {

/// Physical clamp of the generating units' power.
pub const TG_MIN_MILLI: i64 = 120000;

pub const TG_MAX_MILLI: i64 = 150000;

/// Physical clamp of the auxiliary (steam) unit's power.
pub const TV_MIN_MILLI: i64 = 150000;

pub const TV_MAX_MILLI: i64 = 200000;

/// Range the re-randomized unit targets are drawn from.
pub const TARGET_MIN_MILLI: i64 = 125000;

pub const TARGET_MAX_MILLI: i64 = 148000;

/// Largest magnitude of the per-tick noise on a generating unit.
pub const TG_NOISE_MILLI: i64 = 100;

/// Largest magnitude of the per-tick noise on the auxiliary unit.
pub const TV_NOISE_MILLI: i64 = 200;

/// Fast-tick period in seconds: one value recomputation per period.
pub const FAST_TICK_SECS: u64 = 2;

/// Slow-tick period in seconds: targets re-randomize ten times slower.
pub const SLOW_TICK_SECS: u64 = 20;

/// `v` forced into `[lo, hi]`.
pub open spec fn clamp_spec(v: int, lo: int, hi: int) -> int {
    if v < lo {
        lo
    } else if v > hi {
        hi
    } else {
        v
    }
}

/// First-order lag: move from `value` a fraction `num / den` of the distance
/// toward `target`, rounding the step toward zero.
pub open spec fn approach_spec(value: int, target: int, num: int, den: int) -> int {
    if target >= value {
        value + (target - value) * num / den
    } else {
        value - (value - target) * num / den
    }
}

fn clamp_i64(v: i64, lo: i64, hi: i64) -> (r: i64)
    requires
        lo <= hi,
    ensures
        r as int == clamp_spec(v as int, lo as int, hi as int),
{
    if v < lo {
        lo
    } else if v > hi {
        hi
    } else {
        v
    }
}

fn approach(value: i64, target: i64, num: i64, den: i64) -> (r: i64)
    requires
        0 <= value <= 2000000,
        0 <= target <= 2000000,
        1 <= num <= den <= 100,
    ensures
        r as int == approach_spec(value as int, target as int, num as int, den as int),
        value <= target ==> value <= r <= target,
        target <= value ==> target <= r <= value,
{
    if target >= value {
        let diff = target - value;
        proof {
            assert(0 <= (diff as int) * (num as int) <= 200000000 && (diff as int) * (num as int)
                / (den as int) <= diff as int) by (nonlinear_arith)
                requires
                    0 <= diff as int <= 2000000,
                    1 <= num as int <= den as int <= 100,
            ;
        }
        let delta = (diff * num) / den;
        value + delta
    } else {
        let diff = value - target;
        proof {
            assert(0 <= (diff as int) * (num as int) <= 200000000 && (diff as int) * (num as int)
                / (den as int) <= diff as int) by (nonlinear_arith)
                requires
                    0 <= diff as int <= 2000000,
                    1 <= num as int <= den as int <= 100,
            ;
        }
        let delta = (diff * num) / den;
        value - delta
    }
}

/// Relies on rand's thread_rng and Rng::gen_range over `lo..hi`: the draw
/// lies in the half-open range. The range must not be empty, as gen_range
/// panics on an empty range.
#[verifier::external_body]
fn draw_in_range(lo: i64, hi: i64) -> (r: i64)
    requires
        lo < hi,
    ensures
        lo <= r < hi,
{
    rand::thread_rng().gen_range(lo..hi)
}

/// The simulator's process state: current and target power of the two
/// generating units, and the auxiliary unit's current power.
pub struct PlantSimulator {
    pub tg1_power: i64,
    pub tg2_power: i64,
    pub tv_power: i64,
    pub tg1_target: i64,
    pub tg2_target: i64,
}

impl PlantSimulator {
    /// Every power is inside its physical clamp and every target inside the
    /// draw range.
    pub open spec fn wf(&self) -> bool {
        &&& TG_MIN_MILLI <= self.tg1_power <= TG_MAX_MILLI
        &&& TG_MIN_MILLI <= self.tg2_power <= TG_MAX_MILLI
        &&& TV_MIN_MILLI <= self.tv_power <= TV_MAX_MILLI
        &&& TARGET_MIN_MILLI <= self.tg1_target <= TARGET_MAX_MILLI
        &&& TARGET_MIN_MILLI <= self.tg2_target <= TARGET_MAX_MILLI
    }

    /// Unit power after one tick but before clamping: the lag step toward
    /// the target, plus the tick's noise.
    pub open spec fn noisy_tg1(self, n1: int) -> int {
        approach_spec(self.tg1_power as int, self.tg1_target as int, 1, 10) + n1
    }

    pub open spec fn noisy_tg2(self, n2: int) -> int {
        approach_spec(self.tg2_power as int, self.tg2_target as int, 1, 10) + n2
    }

    /// Unit power after one full tick.
    pub open spec fn next_tg1(self, n1: int) -> int {
        clamp_spec(self.noisy_tg1(n1), TG_MIN_MILLI as int, TG_MAX_MILLI as int)
    }

    pub open spec fn next_tg2(self, n2: int) -> int {
        clamp_spec(self.noisy_tg2(n2), TG_MIN_MILLI as int, TG_MAX_MILLI as int)
    }

    /// The auxiliary unit tracks 65% of the combined (noisy, unclamped) unit
    /// power with its own slower 8% lag, then receives its own noise.
    pub open spec fn next_tv(self, n1: int, n2: int, nv: int) -> int {
        let coupled_target = (self.noisy_tg1(n1) + self.noisy_tg2(n2)) * 65 / 100;
        clamp_spec(
            approach_spec(self.tv_power as int, coupled_target, 2, 25) + nv,
            TV_MIN_MILLI as int,
            TV_MAX_MILLI as int,
        )
    }

    /// One tick relates a pre-state to a post-state for the noise actually
    /// drawn; targets never change on a fast tick.
    pub open spec fn is_tick(pre: Self, post: Self, n1: int, n2: int, nv: int) -> bool {
        &&& -TG_NOISE_MILLI <= n1 <= TG_NOISE_MILLI
        &&& -TG_NOISE_MILLI <= n2 <= TG_NOISE_MILLI
        &&& -TV_NOISE_MILLI <= nv <= TV_NOISE_MILLI
        &&& post.tg1_power as int == pre.next_tg1(n1)
        &&& post.tg2_power as int == pre.next_tg2(n2)
        &&& post.tv_power as int == pre.next_tv(n1, n2, nv)
        &&& post.tg1_target == pre.tg1_target
        &&& post.tg2_target == pre.tg2_target
    }

    /// Start from the nominal operating point: 130 and 135 MW on the units,
    /// and the auxiliary unit at 65% of their sum.
    pub fn new() -> (r: PlantSimulator)
        ensures
            r.wf(),
            r.tg1_power == 130000,
            r.tg2_power == 135000,
            r.tv_power == 172250,
            r.tg1_target == 130000,
            r.tg2_target == 135000,
    {
        PlantSimulator {
            tg1_power: 130000,
            tg2_power: 135000,
            tv_power: 172250,
            tg1_target: 130000,
            tg2_target: 135000,
        }
    }

    /// One simulation tick with the given noise: each unit ramps a tenth of
    /// the way to its target, the auxiliary unit follows the coupled target
    /// with its slower lag, and every variable is clamped last — so the
    /// resulting state is in range whatever noise the generator drew.
    pub fn step(&mut self, n1: i64, n2: i64, nv: i64)
        requires
            old(self).wf(),
            -TG_NOISE_MILLI <= n1 <= TG_NOISE_MILLI,
            -TG_NOISE_MILLI <= n2 <= TG_NOISE_MILLI,
            -TV_NOISE_MILLI <= nv <= TV_NOISE_MILLI,
        ensures
            final(self).wf(),
            Self::is_tick(*old(self), *final(self), n1 as int, n2 as int, nv as int),
    {
        let a1 = approach(self.tg1_power, self.tg1_target, 1, 10) + n1;
        let a2 = approach(self.tg2_power, self.tg2_target, 1, 10) + n2;
        let coupled_target = ((a1 + a2) * 65) / 100;
        let av = approach(self.tv_power, coupled_target, 2, 25) + nv;
        self.tg1_power = clamp_i64(a1, TG_MIN_MILLI, TG_MAX_MILLI);
        self.tg2_power = clamp_i64(a2, TG_MIN_MILLI, TG_MAX_MILLI);
        self.tv_power = clamp_i64(av, TV_MIN_MILLI, TV_MAX_MILLI);
    }

    /// One tick with noise drawn from the generator: in milli-units the unit
    /// noise is drawn from `[-100, 100]` and the auxiliary noise from
    /// `[-200, 200]`. Whatever was drawn, the post-state is one `is_tick`
    /// successor of the pre-state, and so stays in range.
    pub fn step_random(&mut self)
        requires
            old(self).wf(),
        ensures
            final(self).wf(),
            exists|n1: int, n2: int, nv: int|
                #[trigger] Self::is_tick(*old(self), *final(self), n1, n2, nv),
    {
        let n1 = draw_in_range(-TG_NOISE_MILLI, TG_NOISE_MILLI + 1);
        let n2 = draw_in_range(-TG_NOISE_MILLI, TG_NOISE_MILLI + 1);
        let nv = draw_in_range(-TV_NOISE_MILLI, TV_NOISE_MILLI + 1);
        self.step(n1, n2, nv);
        proof {
            assert(Self::is_tick(*old(self), *self, n1 as int, n2 as int, nv as int));
        }
    }

    /// Re-seed the transient: both unit targets jump to new setpoints, the
    /// process values are untouched until the next tick.
    pub fn set_new_targets(&mut self, t1: i64, t2: i64)
        requires
            old(self).wf(),
            TARGET_MIN_MILLI <= t1 <= TARGET_MAX_MILLI,
            TARGET_MIN_MILLI <= t2 <= TARGET_MAX_MILLI,
        ensures
            final(self).wf(),
            final(self).tg1_target == t1,
            final(self).tg2_target == t2,
            final(self).tg1_power == old(self).tg1_power,
            final(self).tg2_power == old(self).tg2_power,
            final(self).tv_power == old(self).tv_power,
    {
        self.tg1_target = t1;
        self.tg2_target = t2;
    }

    /// Draw both new targets from the documented range: whatever the
    /// generator returned, each target lands inside it, seeding a new
    /// transient while the process values are untouched.
    pub fn randomize_targets(&mut self)
        requires
            old(self).wf(),
        ensures
            final(self).wf(),
            TARGET_MIN_MILLI <= final(self).tg1_target < TARGET_MAX_MILLI,
            TARGET_MIN_MILLI <= final(self).tg2_target < TARGET_MAX_MILLI,
            final(self).tg1_power == old(self).tg1_power,
            final(self).tg2_power == old(self).tg2_power,
            final(self).tv_power == old(self).tv_power,
    {
        let t1 = draw_in_range(TARGET_MIN_MILLI, TARGET_MAX_MILLI);
        let t2 = draw_in_range(TARGET_MIN_MILLI, TARGET_MAX_MILLI);
        self.set_new_targets(t1, t2);
    }

    /// The current state as named channels, in fixed channel order.
    pub fn get_values(&self) -> (r: Vec<(String, i64)>)
        ensures
            r@.len() == 3,
            r@[0].0@ == "TG1"@ && r@[0].1 == self.tg1_power,
            r@[1].0@ == "TG2"@ && r@[1].1 == self.tg2_power,
            r@[2].0@ == "TV"@ && r@[2].1 == self.tv_power,
    {
        let mut values: Vec<(String, i64)> = Vec::new();
        values.push(("TG1".to_owned(), self.tg1_power));
        values.push(("TG2".to_owned(), self.tg2_power));
        values.push(("TV".to_owned(), self.tv_power));
        values
    }

    /// The current state as one simulation-sourced sample: all channels
    /// together, unlike field mode.
    pub fn sample(&self, timestamp: String) -> (r: TelemetrySample)
        ensures
            r.wf(),
            r.source == SampleSource::Simulated,
            r.timestamp@ == timestamp@,
            r.values@.len() == 3,
            r.values@[0].key@ == "TG1"@ && r.values@[0].milli == self.tg1_power,
            r.values@[1].key@ == "TG2"@ && r.values@[1].milli == self.tg2_power,
            r.values@[2].key@ == "TV"@ && r.values@[2].milli == self.tv_power,
    {
        let mut values: Vec<Measurement> = Vec::new();
        values.push(Measurement { key: "TG1".to_owned(), milli: self.tg1_power });
        values.push(Measurement { key: "TG2".to_owned(), milli: self.tg2_power });
        values.push(Measurement { key: "TV".to_owned(), milli: self.tv_power });
        TelemetrySample { timestamp, source: SampleSource::Simulated, values }
    }
}

/// The boundary property of the simulation: whatever noise each tick drew,
/// after any run of ticks every published value is inside its documented
/// clamp range.
pub proof fn lemma_sim_values_stay_in_range(s: PlantSimulator)
    requires
        s.wf(),
    ensures
        TG_MIN_MILLI <= s.tg1_power <= TG_MAX_MILLI,
        TG_MIN_MILLI <= s.tg2_power <= TG_MAX_MILLI,
        TV_MIN_MILLI <= s.tv_power <= TV_MAX_MILLI,
{
}

} // verus!
