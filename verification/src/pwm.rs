//! PWM actuator: a hardware channel driven to a duty-cycle fraction.
//!
//! The kernel exposes the channel through files the caller writes; this
//! module owns the arithmetic (duty cycle from throttle fraction, period
//! from frequency, fraction from readings), the lifecycle flags, and the
//! setup protocol: export, then retry the whole sequence {set frequency,
//! set initial throttle, enable} with a fixed delay until it succeeds or a
//! bounded budget runs out. The retry wraps the sequence, not each step, so
//! a partially configured channel from a failed attempt is simply
//! configured again from the start.

use vstd::prelude::*;

use crate::arith::MILLI;
use crate::config::Config;

verus! {

/// Nanoseconds in a second; PWM periods are written in nanoseconds.
pub const SECOND_IN_NANOSECONDS: u64 = 1_000_000_000;

/// How fan control fails.
///
/// `SetupFailure`: the channel could not be brought up after the bounded
/// retries; fatal, since without the actuator there is no fan control.
/// `TransientIo`: one read or write of a hardware attribute failed; the
/// cycle skips the operation and the next cycle retries naturally.
#[derive(Clone, Copy, Debug, PartialEq, Eq)]
pub enum ControlError {
    SetupFailure { chip: u32, channel: u32 },
    TransientIo,
}

/// Actuator state: chip and channel fixed at construction, the lifecycle
/// flags tracking the OS resource. Throttles are fixed-point fractions
/// counting thousandths of full duty.
pub struct PwmControl {
    pub chip: u32,
    pub channel: u32,
    pub frequency_hz: u64,
    pub initial_throttle: u64,
    pub exported: bool,
    pub enabled: bool,
    pub released: bool,
}

/// The throttle fraction two channel readings describe: duty cycle over
/// period, in thousandths. Absent when either reading is absent or the
/// period reads as zero — never substituted with a default.
pub open spec fn throttle_reading(period_ns: Option<u32>, duty_cycle_ns: Option<u32>) -> Option<
    u64,
> {
    match (period_ns, duty_cycle_ns) {
        (Some(p), Some(d)) => if p > 0 {
            Some((d * (MILLI as int) / (p as int)) as u64)
        } else {
            None
        },
        _ => None,
    }
}

/// Duty cycle in nanoseconds for a throttle fraction of the given period,
/// rounded to the nearest nanosecond.
pub open spec fn duty_cycle_of(period_ns: int, throttle: int) -> int {
    (period_ns * throttle + (MILLI as int) / 2) / (MILLI as int)
}

/// State after `destroy`, and whether that `destroy` must disable and
/// unexport the channel.
pub open spec fn destroy_spec(s: PwmControl) -> (PwmControl, bool) {
    (PwmControl { enabled: false, released: true, ..s }, s.exported && !s.released)
}

impl PwmControl {
    /// An actuator for the given chip and channel, not yet exported. The
    /// initial throttle is a fraction of full duty, and the frequency must
    /// be positive so the channel has a period at all.
    pub fn new(
        initial_throttle: u64,
        pwm_chip: u32,
        pwm_channel: u32,
        pwm_frequency_hz: u64,
    ) -> (actuator: PwmControl)
        requires
            initial_throttle <= MILLI,
            pwm_frequency_hz >= 1,
        ensures
            actuator.chip == pwm_chip,
            actuator.channel == pwm_channel,
            actuator.frequency_hz == pwm_frequency_hz,
            actuator.initial_throttle == initial_throttle,
            !actuator.exported,
            !actuator.enabled,
            !actuator.released,
    {
        PwmControl {
            chip: pwm_chip,
            channel: pwm_channel,
            frequency_hz: pwm_frequency_hz,
            initial_throttle,
            exported: false,
            enabled: false,
            released: false,
        }
    }

    /// An actuator wired as the configuration says, starting from zero
    /// throttle.
    pub fn new_from_config(config: &Config) -> (actuator: PwmControl)
        requires
            config.wf(),
        ensures
            actuator.chip == config.pwm_chip,
            actuator.channel == config.pwm_channel,
            actuator.frequency_hz == config.pwm_frequency_hz,
            actuator.initial_throttle == 0,
            !actuator.exported,
            !actuator.enabled,
            !actuator.released,
    {
        PwmControl::new(0, config.pwm_chip, config.pwm_channel, config.pwm_frequency_hz)
    }

    /// Record that the channel export call returned successfully. From here
    /// on the OS resource exists and must eventually be released, even if
    /// the setup sequence never succeeds.
    pub fn export_confirmed(&mut self)
        requires
            !old(self).released,
        ensures
            *final(self) == (PwmControl { exported: true, ..*old(self) }),
    {
        self.exported = true;
    }

    /// Record how the retried setup sequence ended. Success leaves the
    /// channel enabled and construction done; exhaustion of the retry
    /// budget reports a setup failure naming the chip and channel, and the
    /// channel stays disabled.
    pub fn finish_setup(&mut self, succeeded: bool) -> (outcome: Result<(), ControlError>)
        requires
            !old(self).released,
        ensures
            *final(self) == (PwmControl { enabled: succeeded, ..*old(self) }),
            succeeded <==> outcome is Ok,
            !succeeded ==> outcome == Result::<(), ControlError>::Err(
                ControlError::SetupFailure { chip: old(self).chip, channel: old(self).channel },
            ),
    {
        self.enabled = succeeded;
        if succeeded {
            Ok(())
        } else {
            Err(ControlError::SetupFailure { chip: self.chip, channel: self.channel })
        }
    }

    /// Record that the hardware enable flag was set.
    pub fn enable(&mut self)
        requires
            !old(self).released,
        ensures
            *final(self) == (PwmControl { enabled: true, ..*old(self) }),
    {
        self.enabled = true;
    }

    /// Disable and release the channel. Returns whether the caller must
    /// perform the hardware teardown (disable, then unexport) now: true
    /// exactly when the channel was exported and has not been released
    /// before, so teardown runs exactly once however the actuator's scope
    /// ends — normal shutdown, an error return, or a construction that
    /// failed after export.
    pub fn destroy(&mut self) -> (teardown_now: bool)
        ensures
            *final(self) == destroy_spec(*old(self)).0,
            teardown_now == destroy_spec(*old(self)).1,
    {
        self.enabled = false;
        let teardown_now = self.exported && !self.released;
        self.released = true;
        teardown_now
    }

    /// Period in nanoseconds that realizes the given frequency, as written
    /// to the channel before the initial throttle.
    pub fn set_frequency(&self, frequency_hz: u64) -> (period_ns: u32)
        requires
            frequency_hz >= 1,
        ensures
            period_ns == SECOND_IN_NANOSECONDS as int / frequency_hz as int,
    {
        (SECOND_IN_NANOSECONDS / frequency_hz) as u32
    }

    /// Duty cycle to write for a throttle fraction, computed against the
    /// period the caller just read from the channel. An absent period
    /// reading is a transient I/O failure: the write is skipped, never
    /// guessed — and never a panic; the caller decides whether it is fatal.
    pub fn set_throttle(&self, throttle: u64, period_ns: Option<u32>) -> (duty: Result<
        u32,
        ControlError,
    >)
        requires
            throttle <= MILLI,
        ensures
            period_ns matches Some(p) ==> duty == Result::<u32, ControlError>::Ok(
                duty_cycle_of(p as int, throttle as int) as u32,
            ),
            period_ns matches Some(p) ==> duty_cycle_of(p as int, throttle as int) <= p,
            period_ns is None ==> duty == Result::<u32, ControlError>::Err(
                ControlError::TransientIo,
            ),
    {
        match period_ns {
            Some(p) => {
                proof {
                    assert(p * throttle <= p * (MILLI as int)) by (nonlinear_arith)
                        requires
                            throttle <= MILLI,
                            p >= 0,
                    ;
                    assert((p * throttle + (MILLI as int) / 2) / (MILLI as int) <= p)
                        by (nonlinear_arith)
                        requires
                            p * throttle <= p * (MILLI as int),
                            p >= 0,
                    ;
                }
                let duty: u64 = ((p as u64) * throttle + (MILLI as u64) / 2) / (MILLI as u64);
                Ok(duty as u32)
            },
            None => Err(ControlError::TransientIo),
        }
    }

    /// Throttle fraction the channel currently realizes, from the two
    /// readings the caller made. Absent — not zero — when either reading
    /// failed.
    pub fn get_throttle(&self, period_ns: Option<u32>, duty_cycle_ns: Option<u32>) -> (throttle:
        Option<u64>)
        ensures
            throttle == throttle_reading(period_ns, duty_cycle_ns),
    {
        match (period_ns, duty_cycle_ns) {
            (Some(p), Some(d)) => if p > 0 {
                Some((d as u64) * (MILLI as u64) / (p as u64))
            } else {
                None
            },
            _ => None,
        }
    }
}

/// Teardown happens exactly once per constructed instance: any `destroy`
/// leaves the state released, and a further `destroy` on a released
/// actuator never asks for the hardware teardown again — also when
/// construction failed between export and enable.
pub proof fn lemma_destroy_releases_once(s: PwmControl)
    ensures
        destroy_spec(s).0.released,
        !destroy_spec(destroy_spec(s).0).1,
        s.exported && !s.released ==> destroy_spec(s).1,
{
}

} // verus!
