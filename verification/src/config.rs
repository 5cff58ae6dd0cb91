//! Motor configuration: immutable motion parameters, validated once at
//! construction, and the timing values derived from them.

use vstd::prelude::*;

use crate::step_mode::StepMode;
use crate::timing::lemma_step_frequency_monotonic;
use crate::timing::lemma_step_period_antitone;
use crate::timing::spec_step_frequency;
use crate::timing::spec_step_period_micros;
use crate::timing::step_frequency;
use crate::timing::step_period_micros;

verus! {

/// Why a configuration was rejected at construction time.
#[derive(Debug, Clone, Copy, PartialEq, Eq)]
pub enum ConfigError {
    /// `full_steps_per_rev` was zero.
    ZeroFullStepsPerRev,
    /// `min_rpm` was zero.
    ZeroMinRpm,
    /// `max_rpm` was below `min_rpm`.
    RpmRangeInverted,
    /// `accel_ppm` was zero or above one million (acceleration must lie in
    /// (0, 1] as a fraction).
    AccelOutOfRange,
    /// The step frequency at `min_rpm` truncates to zero, so no step period
    /// can be derived (division-by-zero guard).
    ZeroStepFrequency,
    /// `min_pulse_on_us` does not fit inside the fastest step period.
    PulseTooWide,
    /// The ramp increment truncates to zero: the acceleration is too small
    /// relative to integer truncation.
    ZeroRampIncrement,
}

/// Configuration parameters for the stepper motor. Built once by
/// [`MotorConfig::new`], which validates them, and never mutated.
///
/// The acceleration is held as `accel_ppm`, the fractional period reduction
/// per step in parts per million: `accel_ppm = 10_000` means each
/// acceleration step shortens the period by one hundredth of the initial
/// period (truncated to whole microseconds).
#[derive(Debug, Clone, Copy)]
pub struct MotorConfig {
    pub full_steps_per_rev: u32,
    pub step_mode: StepMode,
    pub min_rpm: u32,
    pub max_rpm: u32,
    pub accel_ppm: u32,
    pub min_pulse_on_us: u32,
}

impl MotorConfig {
    /// Total microsteps per motor revolution.
    pub open spec fn spec_steps_per_rev(self) -> int {
        self.full_steps_per_rev * self.step_mode.divisor()
    }

    /// Step period at `max_rpm`: the fastest, smallest period.
    pub open spec fn spec_min_step_period(self) -> int {
        spec_step_period_micros(self.max_rpm as int, self.full_steps_per_rev as int, self.step_mode)
    }

    /// Step period at `min_rpm`: the slowest, largest period.
    pub open spec fn spec_max_step_period(self) -> int {
        spec_step_period_micros(self.min_rpm as int, self.full_steps_per_rev as int, self.step_mode)
    }

    /// Period reduction per acceleration step:
    /// the initial (largest) period scaled by the acceleration fraction,
    /// truncated to whole microseconds.
    pub open spec fn spec_ramp_increment(self) -> int {
        self.spec_max_step_period() * self.accel_ppm / 1_000_000
    }

    /// A well-formed configuration: what `new` establishes and every other
    /// operation relies on.
    pub open spec fn valid(self) -> bool {
        &&& 1 <= self.full_steps_per_rev
        &&& 1 <= self.min_rpm <= self.max_rpm
        &&& 1 <= self.accel_ppm <= 1_000_000
        &&& self.full_steps_per_rev * self.step_mode.divisor() * self.max_rpm <= u32::MAX
        &&& 1 <= spec_step_frequency(
            self.min_rpm as int,
            self.full_steps_per_rev as int,
            self.step_mode,
        )
        &&& self.min_pulse_on_us < self.spec_min_step_period()
        &&& 1 <= self.spec_min_step_period() <= self.spec_max_step_period() <= 1_000_000
        &&& 1 <= self.spec_ramp_increment()
    }
}

/// The error `MotorConfig::new` reports for an invalid candidate
/// configuration: the first failed check, in validation order.
pub open spec fn spec_config_error(c: MotorConfig) -> ConfigError {
    if c.full_steps_per_rev == 0 {
        ConfigError::ZeroFullStepsPerRev
    } else if c.min_rpm == 0 {
        ConfigError::ZeroMinRpm
    } else if c.max_rpm < c.min_rpm {
        ConfigError::RpmRangeInverted
    } else if c.accel_ppm == 0 || c.accel_ppm > 1_000_000 {
        ConfigError::AccelOutOfRange
    } else if spec_step_frequency(c.min_rpm as int, c.full_steps_per_rev as int, c.step_mode)
        < 1 {
        ConfigError::ZeroStepFrequency
    } else if c.min_pulse_on_us >= c.spec_min_step_period() {
        ConfigError::PulseTooWide
    } else {
        ConfigError::ZeroRampIncrement
    }
}

impl MotorConfig {
    /// Builds a configuration, rejecting any parameter set on which the
    /// stepping and ramping arithmetic would not be total: a zero
    /// `full_steps_per_rev` or `min_rpm`, an inverted speed range, an
    /// acceleration outside (0, 1], a step frequency that truncates to zero,
    /// a pulse that does not fit inside the fastest period, or a ramp
    /// increment that truncates to zero.
    pub fn new(
        full_steps_per_rev: u32,
        step_mode: StepMode,
        min_rpm: u32,
        max_rpm: u32,
        accel_ppm: u32,
        min_pulse_on_us: u32,
    ) -> (r: Result<MotorConfig, ConfigError>)
        requires
            full_steps_per_rev * step_mode.divisor() * max_rpm <= u32::MAX,
        ensures
            ({
                let c = MotorConfig {
                    full_steps_per_rev,
                    step_mode,
                    min_rpm,
                    max_rpm,
                    accel_ppm,
                    min_pulse_on_us,
                };
                match r {
                    Ok(built) => built == c && c.valid(),
                    Err(e) => !c.valid() && e == spec_config_error(c),
                }
            }),
    {
        let ghost c = MotorConfig {
            full_steps_per_rev,
            step_mode,
            min_rpm,
            max_rpm,
            accel_ppm,
            min_pulse_on_us,
        };
        if full_steps_per_rev == 0 {
            return Err(ConfigError::ZeroFullStepsPerRev);
        }
        if min_rpm == 0 {
            return Err(ConfigError::ZeroMinRpm);
        }
        if max_rpm < min_rpm {
            return Err(ConfigError::RpmRangeInverted);
        }
        if accel_ppm == 0 || accel_ppm > 1_000_000 {
            return Err(ConfigError::AccelOutOfRange);
        }
        proof {
            lemma_step_frequency_monotonic(
                min_rpm as int,
                max_rpm as int,
                full_steps_per_rev as int,
                step_mode,
            );
            assert(full_steps_per_rev * step_mode.divisor() * min_rpm
                <= full_steps_per_rev * step_mode.divisor() * max_rpm) by (nonlinear_arith)
                requires
                    1 <= min_rpm <= max_rpm,
                    0 <= full_steps_per_rev,
                    1 <= step_mode.divisor(),
            ;
            vstd::arithmetic::div_mod::lemma_div_basics_4(
                full_steps_per_rev * step_mode.divisor() * min_rpm,
                60,
            );
        }
        let freq_min_rpm = step_frequency(min_rpm, full_steps_per_rev, step_mode);
        if freq_min_rpm == 0 {
            return Err(ConfigError::ZeroStepFrequency);
        }
        proof {
            lemma_step_period_antitone(
                min_rpm as int,
                max_rpm as int,
                full_steps_per_rev as int,
                step_mode,
            );
            vstd::arithmetic::div_mod::lemma_div_basics_4(1_000_000, c.spec_min_step_period());
        }
        let min_period = step_period_micros(max_rpm, full_steps_per_rev, step_mode);
        if min_pulse_on_us >= min_period {
            return Err(ConfigError::PulseTooWide);
        }
        let max_period = step_period_micros(min_rpm, full_steps_per_rev, step_mode);
        proof {
            assert(max_period * accel_ppm <= 1_000_000_000_000
                && max_period * accel_ppm / 1_000_000 <= max_period) by (nonlinear_arith)
                requires
                    0 <= max_period <= 1_000_000,
                    0 <= accel_ppm <= 1_000_000,
            ;
        }
        let increment_wide: u64 = (max_period as u64) * (accel_ppm as u64) / 1_000_000;
        let ramp_increment = increment_wide as u32;
        if ramp_increment == 0 {
            return Err(ConfigError::ZeroRampIncrement);
        }
        Ok(
            MotorConfig {
                full_steps_per_rev,
                step_mode,
                min_rpm,
                max_rpm,
                accel_ppm,
                min_pulse_on_us,
            },
        )
    }

    /// Total microsteps per motor revolution: `full_steps_per_rev` times the
    /// microstep divisor, for every mode.
    pub fn steps_per_rev(&self) -> (r: u32)
        requires
            self.spec_steps_per_rev() <= u32::MAX,
        ensures
            r == self.spec_steps_per_rev(),
    {
        self.full_steps_per_rev * self.step_mode.value()
    }

    /// The smallest step period (microseconds): the period at `max_rpm`.
    pub fn min_step_period(&self) -> (r: u32)
        requires
            self.valid(),
        ensures
            r == self.spec_min_step_period(),
            self.min_pulse_on_us < r,
            r <= 1_000_000,
    {
        proof {
            self.lemma_valid_fits();
        }
        step_period_micros(self.max_rpm, self.full_steps_per_rev, self.step_mode)
    }

    /// The largest step period (microseconds): the period at `min_rpm`.
    pub fn max_step_period(&self) -> (r: u32)
        requires
            self.valid(),
        ensures
            r == self.spec_max_step_period(),
            self.spec_min_step_period() <= r <= 1_000_000,
    {
        proof {
            self.lemma_valid_fits();
        }
        step_period_micros(self.min_rpm, self.full_steps_per_rev, self.step_mode)
    }

    /// Period reduction per acceleration step (microseconds), as the ramp
    /// algorithm uses it.
    pub fn ramp_increment(&self) -> (r: u32)
        requires
            self.valid(),
        ensures
            r == self.spec_ramp_increment(),
            1 <= r <= self.spec_max_step_period(),
    {
        let max_period = self.max_step_period();
        let accel_ppm = self.accel_ppm;
        proof {
            assert(max_period * accel_ppm <= 1_000_000_000_000
                && max_period * accel_ppm / 1_000_000 <= max_period) by (nonlinear_arith)
                requires
                    0 <= max_period <= 1_000_000,
                    0 <= accel_ppm <= 1_000_000,
            ;
        }
        ((max_period as u64) * (accel_ppm as u64) / 1_000_000) as u32
    }

    /// Bounds that a valid configuration puts on the frequency arithmetic at
    /// any speed within its range.
    pub proof fn lemma_valid_fits(self)
        requires
            self.valid(),
        ensures
            self.full_steps_per_rev * self.step_mode.divisor() * self.min_rpm <= u32::MAX,
            1 <= spec_step_frequency(
                self.max_rpm as int,
                self.full_steps_per_rev as int,
                self.step_mode,
            ),
            self.spec_steps_per_rev() <= u32::MAX,
    {
        assert(self.full_steps_per_rev * self.step_mode.divisor() * self.min_rpm
            <= self.full_steps_per_rev * self.step_mode.divisor() * self.max_rpm
            && self.full_steps_per_rev * self.step_mode.divisor()
            <= self.full_steps_per_rev * self.step_mode.divisor() * self.max_rpm)
            by (nonlinear_arith)
            requires
                1 <= self.min_rpm <= self.max_rpm,
                1 <= self.full_steps_per_rev,
                1 <= self.step_mode.divisor(),
        ;
        lemma_step_frequency_monotonic(
            self.min_rpm as int,
            self.max_rpm as int,
            self.full_steps_per_rev as int,
            self.step_mode,
        );
    }

    /// Splits one step period into the leading pulse-on part and the trailing
    /// pulse-off part: the output pin is high for exactly `min_pulse_on_us`,
    /// then low for the rest, and the two parts always add up to exactly
    /// `period_us` — so consecutive steps are spaced exactly `period_us`
    /// apart no matter how the pulse itself is scheduled.
    pub fn pulse_timing(&self, period_us: u32) -> (r: (u32, u32))
        requires
            self.min_pulse_on_us < period_us,
        ensures
            r.0 == self.min_pulse_on_us,
            r.1 == period_us - self.min_pulse_on_us,
            r.0 + r.1 == period_us,
            1 <= r.1,
    {
        (self.min_pulse_on_us, period_us - self.min_pulse_on_us)
    }
}

} // verus!
