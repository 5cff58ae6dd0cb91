use chuck_core::ConfigError;
use chuck_core::MotorConfig;
use chuck_core::MoveProfile;
use chuck_core::StepMode;
use chuck_core::step_frequency;
use chuck_core::step_period_micros;

#[test]
fn step_mode_test() {
    assert_eq!(StepMode::Full.value(), 1_u32);
    assert_eq!(StepMode::Quarter.value(), 4_u32);
}

#[test]
fn motor_config_test() {
    let config = MotorConfig::new(200, StepMode::Half, 120, 360, 10_000, 2).unwrap();
    assert_eq!(config.steps_per_rev(), 400);
    assert_eq!(config.min_step_period(), 416);
    assert_eq!(config.max_step_period(), 1_250);

    let config = MotorConfig::new(200, StepMode::Eighth, 147, 412, 10_000, 2).unwrap();
    assert_eq!(config.steps_per_rev(), 1_600);
    assert_eq!(config.min_step_period(), 91);
    assert_eq!(config.max_step_period(), 255);
}

#[test]
fn steps_per_rev_all_modes() {
    let modes = [
        (StepMode::Full, 1),
        (StepMode::Half, 2),
        (StepMode::Quarter, 4),
        (StepMode::Eighth, 8),
        (StepMode::Sixteenth, 16),
        (StepMode::ThirtySecondth, 32),
    ];
    for (mode, divisor) in modes {
        let config = MotorConfig::new(200, mode, 120, 360, 100_000, 2).unwrap();
        assert_eq!(config.steps_per_rev(), 200 * divisor);
    }
}

#[test]
fn timing_math_exact_values() {
    assert_eq!(step_frequency(120, 200, StepMode::Half), 800);
    assert_eq!(step_frequency(360, 200, StepMode::Half), 2_400);
    assert_eq!(step_period_micros(120, 200, StepMode::Half), 1_250);
    assert_eq!(step_period_micros(360, 200, StepMode::Half), 416);
}

#[test]
fn construction_rejects_zero_full_steps() {
    let r = MotorConfig::new(0, StepMode::Half, 120, 360, 10_000, 2);
    assert_eq!(r.unwrap_err(), ConfigError::ZeroFullStepsPerRev);
}

#[test]
fn construction_rejects_zero_min_rpm() {
    let r = MotorConfig::new(200, StepMode::Half, 0, 360, 10_000, 2);
    assert_eq!(r.unwrap_err(), ConfigError::ZeroMinRpm);
}

#[test]
fn construction_rejects_inverted_rpm_range() {
    let r = MotorConfig::new(200, StepMode::Half, 360, 120, 10_000, 2);
    assert_eq!(r.unwrap_err(), ConfigError::RpmRangeInverted);
}

#[test]
fn construction_rejects_zero_accel() {
    let r = MotorConfig::new(200, StepMode::Half, 120, 360, 0, 2);
    assert_eq!(r.unwrap_err(), ConfigError::AccelOutOfRange);
}

#[test]
fn construction_rejects_accel_above_one() {
    let r = MotorConfig::new(200, StepMode::Half, 120, 360, 1_000_001, 2);
    assert_eq!(r.unwrap_err(), ConfigError::AccelOutOfRange);
}

#[test]
fn construction_rejects_zero_step_frequency() {
    // 1 * 1 * 30 / 60 truncates to zero steps per second.
    let r = MotorConfig::new(1, StepMode::Full, 30, 59, 10_000, 0);
    assert_eq!(r.unwrap_err(), ConfigError::ZeroStepFrequency);
}

#[test]
fn construction_rejects_pulse_wider_than_fastest_period() {
    // The fastest period is 416 us; a 416 us pulse does not fit inside it.
    let r = MotorConfig::new(200, StepMode::Half, 120, 360, 10_000, 416);
    assert_eq!(r.unwrap_err(), ConfigError::PulseTooWide);
}

#[test]
fn construction_rejects_zero_ramp_increment() {
    // floor(1250 * 1 / 1_000_000) == 0: accel too small for integer truncation.
    let r = MotorConfig::new(200, StepMode::Half, 120, 360, 1, 2);
    assert_eq!(r.unwrap_err(), ConfigError::ZeroRampIncrement);
}

fn reference_config() -> MotorConfig {
    MotorConfig::new(200, StepMode::Half, 120, 360, 10_000, 2).unwrap()
}

#[test]
fn move_of_zero_steps_issues_no_pulses() {
    let config = reference_config();
    let profile = MoveProfile::new(&config, 0);
    assert_eq!(profile.total_steps(), 0);
    assert!(profile.periods().is_empty());
}

#[test]
fn move_of_one_step_runs_at_target_period() {
    let config = reference_config();
    let profile = MoveProfile::new(&config, 1);
    assert_eq!(profile.total_steps(), 1);
    assert_eq!(profile.periods(), vec![416]);
}

#[test]
fn long_move_has_full_ramps_and_cruise() {
    // init 1250, target 416, increment 12, max ramp steps (1250-416)/12 = 69.
    let config = reference_config();
    let profile = MoveProfile::new(&config, 200);
    assert_eq!(profile.ramp_steps, 69);
    assert_eq!(profile.constant_steps, 62);
    assert_eq!(profile.total_steps(), 200);

    let periods = profile.periods();
    assert_eq!(periods.len(), 200);
    // Acceleration: 1250, 1238, ... down to 1250 - 68 * 12 = 434.
    assert_eq!(periods[0], 1_250);
    assert_eq!(periods[1], 1_238);
    assert_eq!(periods[68], 434);
    // Cruise at the fastest period.
    assert_eq!(periods[69], 416);
    assert_eq!(periods[130], 416);
    // Deceleration: 416, 428, ... up to 416 + 68 * 12 = 1232.
    assert_eq!(periods[131], 416);
    assert_eq!(periods[132], 428);
    assert_eq!(periods[199], 1_232);
}

#[test]
fn short_odd_move_keeps_one_cruise_step() {
    // Two ramps of two steps each cover four of the five steps; the halving
    // rule leaves the odd middle step at the target period.
    let config = reference_config();
    let profile = MoveProfile::new(&config, 5);
    assert_eq!(profile.ramp_steps, 2);
    assert_eq!(profile.constant_steps, 1);
    assert_eq!(profile.periods(), vec![1_250, 1_238, 416, 416, 428]);
}

#[test]
fn short_even_move_has_no_cruise_phase() {
    let config = reference_config();
    let profile = MoveProfile::new(&config, 10);
    assert_eq!(profile.ramp_steps, 5);
    assert_eq!(profile.constant_steps, 0);
    assert_eq!(
        profile.periods(),
        vec![1_250, 1_238, 1_226, 1_214, 1_202, 416, 428, 440, 452, 464]
    );
}

#[test]
fn equal_min_and_max_rpm_gives_flat_profile() {
    // An equal speed range is accepted; no ramp fits between the (equal)
    // periods, so every step cruises at the single period.
    let config = MotorConfig::new(200, StepMode::Half, 360, 360, 10_000, 2).unwrap();
    assert_eq!(config.min_step_period(), 416);
    assert_eq!(config.max_step_period(), 416);
    let profile = MoveProfile::new(&config, 4);
    assert_eq!(profile.ramp_steps, 0);
    assert_eq!(profile.constant_steps, 4);
    assert_eq!(profile.periods(), vec![416, 416, 416, 416]);
}

#[test]
fn period_of_agrees_with_periods() {
    let config = reference_config();
    let profile = MoveProfile::new(&config, 200);
    let periods = profile.periods();
    for (i, period) in periods.iter().enumerate() {
        assert_eq!(profile.period_of(i as u32), *period);
    }
}

#[test]
fn pulse_timing_splits_the_exact_period() {
    let config = reference_config();
    let (on, off) = config.pulse_timing(416);
    assert_eq!(on, 2);
    assert_eq!(off, 414);
    assert_eq!(on + off, 416);

    let (on, off) = config.pulse_timing(1_250);
    assert_eq!(on, 2);
    assert_eq!(off, 1_248);
    assert_eq!(on + off, 1_250);
}
