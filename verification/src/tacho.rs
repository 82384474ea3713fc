//! Tachometer: fan RPM estimated from rising-edge timing on a GPIO input.
//!
//! The hardware side — exporting the pin, configuring direction and edge
//! trigger, blocking on the interrupt poller, unexporting — is performed by
//! the caller on its own thread. This module owns the decisions: the
//! lifecycle flags, what each poll outcome does to the RPM estimate, and the
//! guarantee that the pin is released exactly once.

use vstd::prelude::*;

verus! {

/// Pulses the tachometer line produces per mechanical revolution. Two is the
/// common hardware characteristic; adjust this constant for other fans.
pub const PULSES_PER_REVOLUTION: u64 = 2;

/// Microseconds in a minute, the unit RPM is counted over.
pub const MICROS_PER_MINUTE: u64 = 60_000_000;

/// What one wait on the edge poller produced: a rising edge at a monotonic
/// timestamp, no edge within the poll window, or a polling error.
pub enum PollOutcome {
    RisingEdge { at_micros: u64 },
    TimedOut,
    Failed,
}

/// Tachometer state. `running` gates the sampling loop; `exported` and
/// `released` track the pin resource; the last edge timestamp and the last
/// computed RPM make up the sampling history.
pub struct Tacho {
    pub pin: u64,
    pub running: bool,
    pub exported: bool,
    pub released: bool,
    pub last_edge_micros: Option<u64>,
    pub current_rpm: Option<u64>,
}

/// RPM derived from the time between two consecutive rising edges:
/// one over the elapsed seconds, times sixty, divided by the pulses per
/// revolution. Two edges in the same microsecond saturate to the largest
/// representable reading.
pub open spec fn rpm_of_elapsed(elapsed_micros: int) -> int {
    if elapsed_micros <= 0 {
        u64::MAX as int
    } else {
        (MICROS_PER_MINUTE as int / PULSES_PER_REVOLUTION as int) / elapsed_micros
    }
}

/// Executable form of `rpm_of_elapsed`.
pub fn rpm_from_elapsed(elapsed_micros: u64) -> (rpm: u64)
    ensures
        rpm == rpm_of_elapsed(elapsed_micros as int),
{
    if elapsed_micros == 0 {
        u64::MAX
    } else {
        (MICROS_PER_MINUTE / PULSES_PER_REVOLUTION) / elapsed_micros
    }
}

/// State after one poll outcome is applied.
///
/// No edge within the window: the fan is presumed stopped and the RPM
/// becomes zero — not unknown. An edge with a previous timestamp on record:
/// the RPM becomes the edge-timing estimate and the timestamp advances. The
/// very first edge: only the timestamp is recorded, no RPM is emitted yet.
/// A poll error: nothing changes.
pub open spec fn poll_step(s: Tacho, outcome: PollOutcome) -> Tacho {
    match outcome {
        PollOutcome::TimedOut => Tacho { current_rpm: Some(0u64), ..s },
        PollOutcome::Failed => s,
        PollOutcome::RisingEdge { at_micros } => match s.last_edge_micros {
            Some(last) => Tacho {
                current_rpm: Some(rpm_of_elapsed(at_micros - last) as u64),
                last_edge_micros: Some(at_micros),
                ..s
            },
            None => Tacho { last_edge_micros: Some(at_micros), ..s },
        },
    }
}

/// The poll outcome's timestamp does not run backwards relative to the last
/// recorded edge; edges come from a monotonic clock.
pub open spec fn outcome_in_order(s: Tacho, outcome: PollOutcome) -> bool {
    match outcome {
        PollOutcome::RisingEdge { at_micros } => match s.last_edge_micros {
            Some(last) => at_micros >= last,
            None => true,
        },
        _ => true,
    }
}

/// State after `stop`, and whether that `stop` must unexport the pin.
pub open spec fn stop_spec(s: Tacho) -> (Tacho, bool) {
    (Tacho { running: false, released: true, ..s }, s.exported && !s.released)
}

impl Tacho {
    /// A tachometer for the given pin, not yet exported and not sampling.
    pub fn new(pin_number: u64) -> (tacho: Tacho)
        ensures
            tacho.pin == pin_number,
            !tacho.running,
            !tacho.exported,
            !tacho.released,
            tacho.last_edge_micros is None,
            tacho.current_rpm is None,
    {
        Tacho {
            pin: pin_number,
            running: false,
            exported: false,
            released: false,
            last_edge_micros: None,
            current_rpm: None,
        }
    }

    /// Record that the pin export call returned successfully. The resource
    /// now exists and must eventually be released, whether or not the rest
    /// of initialization succeeds.
    pub fn export_confirmed(&mut self)
        requires
            !old(self).released,
        ensures
            *final(self) == (Tacho { exported: true, ..*old(self) }),
    {
        self.exported = true;
    }

    /// Record the outcome of initialization (direction and edge trigger
    /// configured, poller created). On success the sampler may run; on
    /// failure the tachometer stays disabled — reported, not fatal, since
    /// the fan stays controllable by temperature alone.
    pub fn init_finished(&mut self, succeeded: bool)
        requires
            !old(self).released,
        ensures
            *final(self) == (Tacho { running: succeeded, ..*old(self) }),
    {
        self.running = succeeded;
    }

    /// Whether the sampling loop should wait for another edge. Cleared by
    /// `stop`, checked once per iteration.
    pub fn keep_sampling(&self) -> (r: bool)
        ensures
            r == self.running,
    {
        self.running
    }

    /// Apply one poll outcome to the sampling state; see `poll_step` for
    /// what each outcome does. Poll errors never end the loop: the caller
    /// logs them and polls again.
    pub fn handle_poll(&mut self, outcome: PollOutcome)
        requires
            old(self).running,
            outcome_in_order(*old(self), outcome),
        ensures
            *final(self) == poll_step(*old(self), outcome),
    {
        match outcome {
            PollOutcome::TimedOut => {
                self.current_rpm = Some(0);
            },
            PollOutcome::RisingEdge { at_micros } => {
                match self.last_edge_micros {
                    Some(last) => {
                        self.current_rpm = Some(rpm_from_elapsed(at_micros - last));
                        self.last_edge_micros = Some(at_micros);
                    },
                    None => {
                        self.last_edge_micros = Some(at_micros);
                    },
                }
            },
            PollOutcome::Failed => {},
        }
    }

    /// The last computed RPM, absent until a sample has been taken.
    pub fn get_rpm(&self) -> (rpm: Option<u64>)
        ensures
            rpm == self.current_rpm,
    {
        self.current_rpm
    }

    /// Stop sampling and release the pin. Returns whether the caller must
    /// unexport the pin now: true exactly when the pin was exported and has
    /// not been released before, so the resource is given back exactly once
    /// however often `stop` runs.
    pub fn stop(&mut self) -> (unexport_now: bool)
        ensures
            *final(self) == stop_spec(*old(self)).0,
            unexport_now == stop_spec(*old(self)).1,
    {
        self.running = false;
        let unexport_now = self.exported && !self.released;
        self.released = true;
        unexport_now
    }
}

/// The pin is released exactly once, whatever the lifecycle path: any
/// `stop` leaves the state released, and a further `stop` on a released
/// tachometer never asks for another unexport.
pub proof fn lemma_stop_releases_once(s: Tacho)
    ensures
        stop_spec(s).0.released,
        !stop_spec(stop_spec(s).0).1,
{
}

} // verus!
