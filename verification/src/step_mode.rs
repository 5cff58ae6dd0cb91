//! Microstepping modes of the stepper driver.

use vstd::prelude::*;

verus! {

/// Micro-step mode of the stepper-motor driver: the closed set of divisors
/// {1, 2, 4, 8, 16, 32}. A divisor of N means N microsteps per full motor
/// step. Chosen once at configuration time.
#[derive(Debug, Clone, Copy)]
pub enum StepMode {
    Full,
    Half,
    Quarter,
    Eighth,
    Sixteenth,
    ThirtySecondth,
}

impl StepMode {
    /// The microstep divisor this mode stands for.
    pub open spec fn divisor(self) -> int {
        match self {
            StepMode::Full => 1,
            StepMode::Half => 2,
            StepMode::Quarter => 4,
            StepMode::Eighth => 8,
            StepMode::Sixteenth => 16,
            StepMode::ThirtySecondth => 32,
        }
    }

    /// Integer divisor carried by the mode.
    pub fn value(self) -> (d: u32)
        ensures
            d == self.divisor(),
            1 <= d <= 32,
    {
        match self {
            StepMode::Full => 1,
            StepMode::Half => 2,
            StepMode::Quarter => 4,
            StepMode::Eighth => 8,
            StepMode::Sixteenth => 16,
            StepMode::ThirtySecondth => 32,
        }
    }
}

} // verus!
