//! One control cycle of the orchestrator.
//!
//! Each cycle the caller reads the temperature sensor, the actuator's
//! current throttle and the tachometer's RPM, hands the three readings in,
//! and gets back what to do: the new throttle to write — or nothing, when
//! temperature or throttle was unreadable, since controlling on an absent
//! reading is worse than waiting a cycle — together with the complete
//! status snapshot to publish. The caller then performs the write, stores
//! the snapshot under its lock, and sleeps out the rest of the fixed
//! period.

use vstd::prelude::*;

use crate::arith::FIXED_BOUND;
use crate::pid::PidControl;
use crate::status::Status;

verus! {

/// The three readings one cycle starts from; a reading is absent when its
/// source failed this cycle.
#[derive(Clone, Copy, Debug)]
pub struct CycleInputs {
    pub temperature: Option<i64>,
    pub throttle: Option<u64>,
    pub rpm: Option<u64>,
}

/// What the cycle asks the caller to do with the actuator.
#[derive(Clone, Copy, Debug, PartialEq, Eq)]
pub enum CycleAction {
    SetThrottle { throttle: u64 },
    Skip,
}

/// Everything one cycle decided: the actuator action and the snapshot to
/// publish.
pub struct CycleStep {
    pub action: CycleAction,
    pub status: Status,
}

/// The action a cycle takes: a control step only when both the temperature
/// and the current throttle were readable.
pub open spec fn cycle_action_spec(pid: PidControl, inputs: CycleInputs) -> CycleAction {
    match (inputs.temperature, inputs.throttle) {
        (Some(t), Some(c)) => CycleAction::SetThrottle {
            throttle: pid.spec_output(t as int, c as int) as u64,
        },
        _ => CycleAction::Skip,
    }
}

/// The controller state a cycle leaves behind: advanced one step when the
/// cycle controlled, untouched when it skipped.
pub open spec fn cycle_pid_spec(pid: PidControl, inputs: CycleInputs) -> PidControl {
    match (inputs.temperature, inputs.throttle) {
        (Some(t), Some(c)) => pid.next_state(t as int),
        _ => pid,
    }
}

/// The snapshot a cycle publishes: each field is exactly this cycle's
/// reading of its own source, present or absent independently of the
/// others, and all three come from the same cycle.
pub open spec fn cycle_status_spec(inputs: CycleInputs) -> Status {
    Status { rpm: inputs.rpm, throttle: inputs.throttle, temperature: inputs.temperature }
}

/// Run one control cycle over the given readings.
///
/// An unreadable temperature or throttle skips the control step for this
/// cycle — the controller state does not move, nothing is written, and the
/// next cycle retries with fresh readings — while the snapshot still
/// carries whatever was read. When both are readable, the new throttle is
/// one PID step, and it lies within the controller's output bounds.
pub fn run_cycle(pid: &mut PidControl, inputs: &CycleInputs) -> (step: CycleStep)
    requires
        old(pid).wf(),
    ensures
        *final(pid) == cycle_pid_spec(*old(pid), *inputs),
        final(pid).wf(),
        step.action == cycle_action_spec(*old(pid), *inputs),
        step.status == cycle_status_spec(*inputs),
        (step.action matches CycleAction::SetThrottle { throttle } ==> old(pid).min_throttle
            <= throttle <= old(pid).max_throttle),
{
    let action = match (inputs.temperature, inputs.throttle) {
        (Some(temperature), Some(level)) => {
            let level_fixed: i64 = if level >= (FIXED_BOUND as u64) {
                FIXED_BOUND
            } else {
                level as i64
            };
            let new_throttle = pid.control(temperature, level_fixed);
            proof {
                assert(old(pid).spec_output(temperature as int, level_fixed as int) == old(
                    pid,
                ).spec_output(temperature as int, level as int));
            }
            CycleAction::SetThrottle { throttle: new_throttle as u64 }
        },
        _ => CycleAction::Skip,
    };
    CycleStep {
        action,
        status: Status {
            rpm: inputs.rpm,
            throttle: inputs.throttle,
            temperature: inputs.temperature,
        },
    }
}

} // verus!
