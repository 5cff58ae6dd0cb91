//! Motion-control core for a trigger-actuated stepper-motor mechanism.
//!
//! Given a target number of microsteps, the library computes a bounded
//! acceleration/cruise/deceleration (trapezoidal) velocity profile and the
//! exact period of every step pulse in it. The caller drives the hardware:
//! it walks the profile and emits one pulse per period.

pub mod config;
pub mod profile;
pub mod step_mode;
pub mod timing;

pub use config::ConfigError;
pub use config::MotorConfig;
pub use profile::MoveProfile;
pub use step_mode::StepMode;
pub use timing::step_frequency;
pub use timing::step_period_micros;
