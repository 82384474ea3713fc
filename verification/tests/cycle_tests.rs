use smarst_fan::cycle::{run_cycle, CycleAction, CycleInputs};
use smarst_fan::pid::PidControl;
use smarst_fan::signals::SignalHandler;

fn controller() -> PidControl {
    PidControl::new(1, 1, 0, 45_000, 0, 1000)
}

#[test]
fn full_readings_produce_control_step_and_snapshot() {
    let mut pid = controller();
    let inputs = CycleInputs {
        temperature: Some(80_000),
        throttle: Some(500),
        rpm: Some(1200),
    };
    let step = run_cycle(&mut pid, &inputs);
    assert_eq!(step.action, CycleAction::SetThrottle { throttle: 570 });
    assert_eq!(step.status.rpm, Some(1200));
    assert_eq!(step.status.throttle, Some(500));
    assert_eq!(step.status.temperature, Some(80_000));
}

#[test]
fn unreadable_temperature_skips_control_but_updates_rest() {
    // The temperature read failed this cycle: no control step, but RPM and
    // throttle still reach the snapshot from their own sources, and the
    // temperature is published as absent — never substituted with zero.
    let mut pid = controller();
    let inputs = CycleInputs { temperature: None, throttle: Some(500), rpm: Some(1200) };
    let step = run_cycle(&mut pid, &inputs);
    assert_eq!(step.action, CycleAction::Skip);
    assert_eq!(step.status.temperature, None);
    assert_eq!(step.status.rpm, Some(1200));
    assert_eq!(step.status.throttle, Some(500));
    assert_eq!(pid.error_sum, 0);
    assert_eq!(pid.last_error, 0);
}

#[test]
fn unreadable_throttle_skips_control() {
    let mut pid = controller();
    let inputs = CycleInputs { temperature: Some(80_000), throttle: None, rpm: None };
    let step = run_cycle(&mut pid, &inputs);
    assert_eq!(step.action, CycleAction::Skip);
    assert_eq!(step.status.temperature, Some(80_000));
    assert_eq!(step.status.throttle, None);
    assert_eq!(step.status.rpm, None);
    assert_eq!(pid.error_sum, 0);
}

#[test]
fn absent_tachometer_still_controls() {
    let mut pid = controller();
    let inputs = CycleInputs { temperature: Some(80_000), throttle: Some(500), rpm: None };
    let step = run_cycle(&mut pid, &inputs);
    assert_eq!(step.action, CycleAction::SetThrottle { throttle: 570 });
    assert_eq!(step.status.rpm, None);
}

#[test]
fn skipped_cycle_leaves_next_cycle_as_if_first() {
    let mut pid = controller();
    let skip = CycleInputs { temperature: None, throttle: Some(500), rpm: None };
    run_cycle(&mut pid, &skip);
    let full = CycleInputs { temperature: Some(80_000), throttle: Some(500), rpm: None };
    let step = run_cycle(&mut pid, &full);
    assert_eq!(step.action, CycleAction::SetThrottle { throttle: 570 });
}

#[test]
fn oversized_throttle_reading_is_brought_into_bounds() {
    let mut pid = controller();
    let inputs = CycleInputs {
        temperature: Some(45_000),
        throttle: Some(u64::MAX),
        rpm: None,
    };
    let step = run_cycle(&mut pid, &inputs);
    assert_eq!(step.action, CycleAction::SetThrottle { throttle: 1000 });
}

#[test]
fn termination_flag_starts_clear_and_latches() {
    let mut handler = SignalHandler::new();
    assert!(!handler.should_terminate());
    handler.signal_received();
    assert!(handler.should_terminate());
    handler.signal_received();
    assert!(handler.should_terminate());
}
