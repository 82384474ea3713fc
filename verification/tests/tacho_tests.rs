use smarst_fan::tacho::{rpm_from_elapsed, PollOutcome, Tacho};

#[test]
fn rpm_formula_exact_values() {
    // Two pulses per revolution: rpm = (1 / elapsed_seconds) * 60 / 2.
    assert_eq!(rpm_from_elapsed(500_000), 60);
    assert_eq!(rpm_from_elapsed(1_000_000), 30);
    assert_eq!(rpm_from_elapsed(100_000), 300);
    assert_eq!(rpm_from_elapsed(30_000_000), 1);
    assert_eq!(rpm_from_elapsed(60_000_000), 0);
    assert_eq!(rpm_from_elapsed(0), u64::MAX);
}

fn running_tacho() -> Tacho {
    let mut tacho = Tacho::new(17);
    tacho.export_confirmed();
    tacho.init_finished(true);
    tacho
}

#[test]
fn two_edges_half_second_apart_give_sixty_rpm() {
    let mut tacho = running_tacho();
    tacho.handle_poll(PollOutcome::RisingEdge { at_micros: 1_000_000 });
    tacho.handle_poll(PollOutcome::RisingEdge { at_micros: 1_500_000 });
    assert_eq!(tacho.get_rpm(), Some(60));
}

#[test]
fn single_edge_yields_no_rpm_yet() {
    let mut tacho = running_tacho();
    tacho.handle_poll(PollOutcome::RisingEdge { at_micros: 1_000_000 });
    assert_eq!(tacho.get_rpm(), None);
}

#[test]
fn timeout_means_fan_presumed_stopped() {
    let mut tacho = running_tacho();
    tacho.handle_poll(PollOutcome::TimedOut);
    assert_eq!(tacho.get_rpm(), Some(0));
}

#[test]
fn poll_error_changes_nothing() {
    let mut tacho = running_tacho();
    tacho.handle_poll(PollOutcome::RisingEdge { at_micros: 1_000_000 });
    tacho.handle_poll(PollOutcome::RisingEdge { at_micros: 1_500_000 });
    tacho.handle_poll(PollOutcome::Failed);
    assert_eq!(tacho.get_rpm(), Some(60));
    assert!(tacho.keep_sampling());
}

#[test]
fn timeout_after_edges_overwrites_rpm_with_zero() {
    let mut tacho = running_tacho();
    tacho.handle_poll(PollOutcome::RisingEdge { at_micros: 1_000_000 });
    tacho.handle_poll(PollOutcome::RisingEdge { at_micros: 1_500_000 });
    tacho.handle_poll(PollOutcome::TimedOut);
    assert_eq!(tacho.get_rpm(), Some(0));
}

#[test]
fn new_tacho_is_idle_and_unexported() {
    let tacho = Tacho::new(24);
    assert_eq!(tacho.pin, 24);
    assert!(!tacho.keep_sampling());
    assert_eq!(tacho.get_rpm(), None);
}

#[test]
fn failed_init_leaves_sampler_stopped() {
    let mut tacho = Tacho::new(17);
    tacho.export_confirmed();
    tacho.init_finished(false);
    assert!(!tacho.keep_sampling());
    assert_eq!(tacho.get_rpm(), None);
}

#[test]
fn stop_unexports_exactly_once() {
    let mut tacho = running_tacho();
    assert!(tacho.stop());
    assert!(!tacho.keep_sampling());
    assert!(!tacho.stop());
}

#[test]
fn stop_without_export_never_asks_for_unexport() {
    let mut tacho = Tacho::new(17);
    assert!(!tacho.stop());
}

#[test]
fn stop_after_failed_init_still_releases_exported_pin() {
    let mut tacho = Tacho::new(17);
    tacho.export_confirmed();
    tacho.init_finished(false);
    assert!(tacho.stop());
    assert!(!tacho.stop());
}
