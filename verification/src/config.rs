//! Resolved configuration: the fixed set of scalar values the controller is
//! started with. Loading and parsing configuration files is the caller's
//! business; the core treats these values as immutable inputs and never
//! reloads them.

use vstd::prelude::*;

use crate::arith::{in_fixed_range, FIXED_BOUND, MILLI};

verus! {

/// Wiring, control and scheduling parameters. Temperatures, throttles and
/// gains are fixed-point values counting thousandths.
pub struct Config {
    pub tacho_gpio_pin: u64,
    pub pwm_chip: u32,
    pub pwm_channel: u32,
    pub tacho_enabled: bool,
    pub target_temperature: i64,
    pub min_throttle: i64,
    pub max_throttle: i64,
    pub proportional: i64,
    pub integral: i64,
    pub derivative: i64,
    pub pwm_frequency_hz: u64,
    pub cycle_period_ms: u64,
}

impl Config {
    /// Usable configuration: control values inside the fixed-point working
    /// range, throttle bounds forming an interval within `[0, 1]`, and a
    /// positive PWM frequency and cycle period.
    pub open spec fn wf(self) -> bool {
        &&& in_fixed_range(self.target_temperature as int)
        &&& in_fixed_range(self.proportional as int)
        &&& in_fixed_range(self.integral as int)
        &&& in_fixed_range(self.derivative as int)
        &&& 0 <= self.min_throttle <= self.max_throttle <= MILLI
        &&& self.pwm_frequency_hz >= 1
        &&& self.cycle_period_ms >= 1
    }

    /// Whether this configuration is usable; startup aborts on a false
    /// answer rather than controlling with meaningless bounds.
    pub fn validate(&self) -> (ok: bool)
        ensures
            ok == self.wf(),
    {
        let range_ok = -FIXED_BOUND <= self.target_temperature
            && self.target_temperature <= FIXED_BOUND && -FIXED_BOUND <= self.proportional
            && self.proportional <= FIXED_BOUND && -FIXED_BOUND <= self.integral
            && self.integral <= FIXED_BOUND && -FIXED_BOUND <= self.derivative
            && self.derivative <= FIXED_BOUND;
        range_ok && 0 <= self.min_throttle && self.min_throttle <= self.max_throttle
            && self.max_throttle <= MILLI && self.pwm_frequency_hz >= 1
            && self.cycle_period_ms >= 1
    }
}

} // verus!
