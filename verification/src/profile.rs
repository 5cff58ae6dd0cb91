//! The trapezoidal velocity profile of one bounded move: a linear
//! acceleration ramp, a constant-speed cruise, and a mirrored deceleration
//! ramp, with the exact step period of every pulse.
//!
//! The profile is a pure function of the configuration and the requested
//! number of microsteps. The caller that owns the hardware walks the profile
//! in order and emits one pulse per period; the phases follow each other
//! strictly, with no step skipped or reordered.

use vstd::prelude::*;

use crate::config::MotorConfig;
use vstd::arithmetic::div_mod::lemma_div_basics_5;
use vstd::arithmetic::div_mod::lemma_fundamental_div_mod;
use vstd::arithmetic::mul::lemma_mul_inequality;
use vstd::arithmetic::mul::lemma_mul_is_commutative;
use vstd::arithmetic::mul::lemma_mul_is_distributive_sub;

verus! {

/// The largest number of acceleration steps the configuration allows: how
/// often the ramp increment fits between the slowest and the fastest period.
pub open spec fn spec_max_ramp_steps(c: MotorConfig) -> int {
    (c.spec_max_step_period() - c.spec_min_step_period()) / c.spec_ramp_increment()
}

/// Acceleration (and, mirrored, deceleration) steps of a move of `steps`
/// microsteps: half the requested steps when two full ramps would cover the
/// move, the configuration's maximum otherwise.
pub open spec fn spec_ramp_steps(c: MotorConfig, steps: u32) -> int {
    if 2 * spec_max_ramp_steps(c) >= steps {
        steps as int / 2
    } else {
        spec_max_ramp_steps(c)
    }
}

/// A move's velocity profile: the ramp geometry, fixed for the whole move.
#[derive(Debug, Clone, Copy)]
pub struct MoveProfile {
    /// Period of the first acceleration step: the slowest period.
    pub init_period: u32,
    /// Period of every cruise step: the fastest period.
    pub target_period: u32,
    /// Period change per ramp step.
    pub ramp_increment: u32,
    /// Steps in the acceleration ramp, and likewise in the deceleration ramp.
    pub ramp_steps: u32,
    /// Steps in the constant-speed cruise phase.
    pub constant_steps: u32,
}

/// The profile a valid configuration prescribes for a move of `steps`
/// microsteps.
pub open spec fn spec_move_profile(c: MotorConfig, steps: u32) -> MoveProfile {
    MoveProfile {
        init_period: c.spec_max_step_period() as u32,
        target_period: c.spec_min_step_period() as u32,
        ramp_increment: c.spec_ramp_increment() as u32,
        ramp_steps: spec_ramp_steps(c, steps) as u32,
        constant_steps: (steps - 2 * spec_ramp_steps(c, steps)) as u32,
    }
}

impl MoveProfile {
    /// Geometry every profile built by [`MoveProfile::new`] satisfies; what
    /// keeps each period of the move between `target_period` and
    /// `init_period` and the arithmetic on them exact.
    pub open spec fn wf(self) -> bool {
        &&& 1 <= self.target_period <= self.init_period <= 1_000_000
        &&& 1 <= self.ramp_increment
        &&& self.ramp_steps * self.ramp_increment <= self.init_period - self.target_period
        &&& 2 * self.ramp_steps + self.constant_steps <= u32::MAX
    }

    /// Pulses the move issues in total.
    pub open spec fn spec_total_steps(self) -> int {
        2 * self.ramp_steps + self.constant_steps
    }

    /// Step period of the `i`-th pulse of the move: decreasing from
    /// `init_period` through the acceleration ramp, `target_period` through
    /// the cruise, increasing from `target_period` through the deceleration
    /// ramp.
    pub open spec fn spec_period_at(self, i: int) -> int {
        if i < self.ramp_steps {
            self.init_period - i * self.ramp_increment
        } else if i < self.ramp_steps + self.constant_steps {
            self.target_period as int
        } else {
            self.target_period + (i - self.ramp_steps - self.constant_steps) * self.ramp_increment
        }
    }

    /// The whole move as the sequence of its step periods, one per pulse.
    pub open spec fn spec_periods(self) -> Seq<int> {
        Seq::new(self.spec_total_steps() as nat, |i: int| self.spec_period_at(i))
    }

    /// Plans a move of `steps` microsteps under `config`: ramps never exceed
    /// half the requested steps, the cruise takes whatever the two ramps
    /// leave, and a move too short to reach full speed degrades to a
    /// symmetric partial ramp with no cruise phase.
    pub fn new(config: &MotorConfig, steps: u32) -> (p: MoveProfile)
        requires
            config.valid(),
        ensures
            p == spec_move_profile(*config, steps),
            p.wf(),
            p.spec_total_steps() == steps,
            p.ramp_steps <= steps / 2,
            p.constant_steps == steps - 2 * p.ramp_steps,
            p.init_period == config.spec_max_step_period(),
            p.target_period == config.spec_min_step_period(),
            p.ramp_increment == config.spec_ramp_increment(),
    {
        let init_period = config.max_step_period();
        let target_period = config.min_step_period();
        let ramp_increment = config.ramp_increment();
        proof {
            lemma_div_basics_5((init_period - target_period) as int, ramp_increment as int);
        }
        let max_ramp_steps = (init_period - target_period) / ramp_increment;
        let ramp_steps = if 2 * max_ramp_steps >= steps {
            steps / 2
        } else {
            max_ramp_steps
        };
        let constant_steps = steps - 2 * ramp_steps;
        proof {
            lemma_fundamental_div_mod((init_period - target_period) as int, ramp_increment as int);
            lemma_mul_is_commutative(ramp_increment as int, max_ramp_steps as int);
            lemma_mul_inequality(ramp_steps as int, max_ramp_steps as int, ramp_increment as int);
        }
        MoveProfile { init_period, target_period, ramp_increment, ramp_steps, constant_steps }
    }

    /// Pulses the move issues in total: both ramps plus the cruise.
    pub fn total_steps(&self) -> (n: u32)
        requires
            self.wf(),
        ensures
            n == self.spec_total_steps(),
    {
        2 * self.ramp_steps + self.constant_steps
    }

    /// Step period of the `i`-th pulse, always between `target_period` and
    /// `init_period` — so a pulse that fits the fastest period fits every
    /// period of the move.
    pub fn period_of(&self, i: u32) -> (period: u32)
        requires
            self.wf(),
            i < self.spec_total_steps(),
        ensures
            period == self.spec_period_at(i as int),
            self.target_period <= period <= self.init_period,
    {
        if i < self.ramp_steps {
            proof {
                lemma_mul_inequality(i as int, self.ramp_steps as int, self.ramp_increment as int);
            }
            self.init_period - i * self.ramp_increment
        } else if i < self.ramp_steps + self.constant_steps {
            self.target_period
        } else {
            let k = i - self.ramp_steps - self.constant_steps;
            proof {
                lemma_mul_inequality(
                    k as int,
                    self.ramp_steps as int - 1,
                    self.ramp_increment as int,
                );
                lemma_mul_is_distributive_sub(
                    self.ramp_increment as int,
                    self.ramp_steps as int,
                    1,
                );
                lemma_mul_is_commutative(self.ramp_increment as int, self.ramp_steps as int);
                lemma_mul_is_commutative(self.ramp_increment as int, self.ramp_steps as int - 1);
            }
            self.target_period + k * self.ramp_increment
        }
    }

    /// All step periods of the move in order: the acceleration ramp from
    /// `init_period` downward, the cruise at `target_period`, the
    /// deceleration ramp from `target_period` upward.
    pub fn periods(&self) -> (v: Vec<u32>)
        requires
            self.wf(),
        ensures
            v@.len() == self.spec_total_steps(),
            forall|i: int| 0 <= i < v@.len() ==> v@[i] == self.spec_period_at(i),
    {
        let total = self.total_steps();
        let mut v: Vec<u32> = Vec::new();
        let mut i: u32 = 0;
        while i < total
            invariant
                self.wf(),
                total == self.spec_total_steps(),
                i <= total,
                v@.len() == i,
                forall|j: int| 0 <= j < i ==> v@[j] == self.spec_period_at(j),
            decreases total - i,
        {
            let period = self.period_of(i);
            v.push(period);
            i = i + 1;
        }
        v
    }
}

/// For every valid configuration and every requested step count, the move
/// issues exactly `steps` pulses; each ramp takes at most half the requested
/// steps, and the cruise takes exactly what the two ramps leave.
pub proof fn lemma_move_issues_exact_steps(c: MotorConfig, steps: u32)
    requires
        c.valid(),
    ensures
        spec_move_profile(c, steps).spec_periods().len() == steps,
        spec_ramp_steps(c, steps) <= steps as int / 2,
        spec_move_profile(c, steps).constant_steps == steps - 2 * spec_ramp_steps(c, steps),
        steps - 2 * spec_ramp_steps(c, steps) >= 0,
{
    lemma_profile_shape(c, steps);
}

/// When the requested steps exceed what two full ramps cover, the cruise
/// phase is non-empty; when they do not — stated here for an even step
/// count — the move is two half-ramps with no cruise phase.
pub proof fn lemma_cruise_phase(c: MotorConfig, steps: u32)
    requires
        c.valid(),
        2 * spec_max_ramp_steps(c) < steps || steps % 2 == 0,
    ensures
        2 * spec_max_ramp_steps(c) < steps ==> spec_move_profile(c, steps).constant_steps > 0,
        2 * spec_max_ramp_steps(c) >= steps ==> spec_move_profile(c, steps).constant_steps == 0,
{
    lemma_profile_shape(c, steps);
}

/// A move of zero steps issues no pulse at all.
pub proof fn lemma_zero_steps_no_pulses(c: MotorConfig)
    requires
        c.valid(),
    ensures
        spec_move_profile(c, 0).spec_periods() =~= Seq::<int>::empty(),
{
    lemma_profile_shape(c, 0);
}

/// A move of one step issues exactly one pulse, and it runs at the fastest
/// period: the halving rule leaves no room for a ramp, so the single step
/// skips acceleration entirely.
pub proof fn lemma_single_step_at_target(c: MotorConfig)
    requires
        c.valid(),
    ensures
        spec_move_profile(c, 1).spec_periods() =~= seq![c.spec_min_step_period()],
{
    lemma_profile_shape(c, 1);
    let p = spec_move_profile(c, 1);
    assert(p.ramp_steps == 0 && p.constant_steps == 1);
    assert(p.spec_period_at(0) == c.spec_min_step_period());
}

/// The ramp arithmetic behind the laws above: bounds on the planned phase
/// lengths for any valid configuration and step count.
proof fn lemma_profile_shape(c: MotorConfig, steps: u32)
    requires
        c.valid(),
    ensures
        0 <= spec_max_ramp_steps(c),
        0 <= spec_ramp_steps(c, steps),
        2 * spec_ramp_steps(c, steps) <= steps,
        spec_ramp_steps(c, steps) <= steps as int / 2,
        spec_move_profile(c, steps).ramp_steps == spec_ramp_steps(c, steps),
        spec_move_profile(c, steps).constant_steps == steps - 2 * spec_ramp_steps(c, steps),
        spec_move_profile(c, steps).spec_total_steps() == steps,
        spec_move_profile(c, steps).spec_periods().len() == steps,
        spec_move_profile(c, steps).target_period == c.spec_min_step_period(),
{
    let mrs = spec_max_ramp_steps(c);
    vstd::arithmetic::div_mod::lemma_div_basics_4(
        c.spec_max_step_period() - c.spec_min_step_period(),
        c.spec_ramp_increment(),
    );
    lemma_div_basics_5(
        c.spec_max_step_period() - c.spec_min_step_period(),
        c.spec_ramp_increment(),
    );
    assert(0 <= mrs <= 1_000_000);
    let rs = spec_ramp_steps(c, steps);
    assert(2 * rs <= steps);
    assert(rs <= steps as int / 2);
}

} // verus!
