//! Step-timing arithmetic: step frequency and step period for a target speed.
//!
//! All divisions truncate toward zero, multiplications are carried out in
//! full before the final division, matching the exact integer behaviour the
//! rest of the library is specified against.

use vstd::prelude::*;

use crate::step_mode::StepMode;

verus! {

/// Step frequency (Hz) at a target speed:
/// `full_steps_per_rev * divisor * rpm / 60`, the division last.
pub open spec fn spec_step_frequency(rpm: int, full_steps_per_rev: int, step_mode: StepMode) -> int {
    full_steps_per_rev * step_mode.divisor() * rpm / 60
}

/// Step period (microseconds) at a target speed: `1_000_000 / frequency`.
pub open spec fn spec_step_period_micros(rpm: int, full_steps_per_rev: int, step_mode: StepMode) -> int {
    1_000_000int / spec_step_frequency(rpm, full_steps_per_rev, step_mode)
}

/// At a fixed geometry the step frequency grows with the speed.
pub proof fn lemma_step_frequency_monotonic(
    rpm1: int,
    rpm2: int,
    full_steps_per_rev: int,
    step_mode: StepMode,
)
    requires
        0 <= rpm1 <= rpm2,
        0 <= full_steps_per_rev,
    ensures
        spec_step_frequency(rpm1, full_steps_per_rev, step_mode)
            <= spec_step_frequency(rpm2, full_steps_per_rev, step_mode),
{
    let d = step_mode.divisor();
    assert(full_steps_per_rev * d * rpm1 <= full_steps_per_rev * d * rpm2) by (nonlinear_arith)
        requires
            0 <= rpm1 <= rpm2,
            0 <= full_steps_per_rev,
            1 <= d,
    ;
    vstd::arithmetic::div_mod::lemma_div_is_ordered(
        full_steps_per_rev * d * rpm1,
        full_steps_per_rev * d * rpm2,
        60,
    );
}

/// At a fixed geometry a higher speed gives a shorter (or equal) step period.
pub proof fn lemma_step_period_antitone(
    rpm1: int,
    rpm2: int,
    full_steps_per_rev: int,
    step_mode: StepMode,
)
    requires
        0 <= rpm1 <= rpm2,
        0 <= full_steps_per_rev,
        1 <= spec_step_frequency(rpm1, full_steps_per_rev, step_mode),
    ensures
        spec_step_period_micros(rpm2, full_steps_per_rev, step_mode)
            <= spec_step_period_micros(rpm1, full_steps_per_rev, step_mode),
        spec_step_period_micros(rpm1, full_steps_per_rev, step_mode) <= 1_000_000,
{
    let f1 = spec_step_frequency(rpm1, full_steps_per_rev, step_mode);
    let f2 = spec_step_frequency(rpm2, full_steps_per_rev, step_mode);
    lemma_step_frequency_monotonic(rpm1, rpm2, full_steps_per_rev, step_mode);
    vstd::arithmetic::div_mod::lemma_div_is_ordered_by_denominator(1_000_000, f1, f2);
    vstd::arithmetic::div_mod::lemma_div_is_ordered_by_denominator(1_000_000, 1, f1);
}

/// Step frequency (Hz) for a target motor speed, full steps per revolution,
/// and micro-step mode.
pub fn step_frequency(rpm: u32, full_steps_per_rev: u32, step_mode: StepMode) -> (freq: u32)
    requires
        1 <= rpm,
        full_steps_per_rev * step_mode.divisor() * rpm <= u32::MAX,
    ensures
        freq == spec_step_frequency(rpm as int, full_steps_per_rev as int, step_mode),
{
    proof {
        assert(full_steps_per_rev * step_mode.divisor()
            <= full_steps_per_rev * step_mode.divisor() * rpm) by (nonlinear_arith)
            requires
                1 <= rpm,
                0 <= full_steps_per_rev,
                1 <= step_mode.divisor(),
        ;
    }
    full_steps_per_rev * step_mode.value() * rpm / 60
}

/// Step period (microseconds) for a target motor speed, full steps per
/// revolution, and micro-step mode.
pub fn step_period_micros(rpm: u32, full_steps_per_rev: u32, step_mode: StepMode) -> (period: u32)
    requires
        1 <= rpm,
        full_steps_per_rev * step_mode.divisor() * rpm <= u32::MAX,
        1 <= spec_step_frequency(rpm as int, full_steps_per_rev as int, step_mode),
    ensures
        period == spec_step_period_micros(rpm as int, full_steps_per_rev as int, step_mode),
        period <= 1_000_000,
{
    let freq = step_frequency(rpm, full_steps_per_rev, step_mode);
    1_000_000 / freq
}

} // verus!
