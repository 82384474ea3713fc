//! Shared status snapshot and telemetry sample selection.
//!
//! The orchestrator publishes one complete `Status` per control cycle; the
//! telemetry reporter copies it out from under its lock and publishes each
//! present field on its own topic, so a missing field never blocks the
//! others. The snapshot is replaced whole — all three fields always come
//! from the same cycle.

use vstd::prelude::*;

use crate::render::{dec_digits, milli_decimal, milli_digits, milli_i64_to_decimal,
    milli_u64_to_decimal, u64_to_decimal};

verus! {

/// Latest known readings, one per source; a field is absent when its source
/// was unreadable that cycle. RPM is a plain count, throttle a fixed-point
/// fraction in thousandths, temperature fixed-point milli-degrees Celsius.
#[derive(Clone, Copy, Debug)]
pub struct Status {
    pub rpm: Option<u64>,
    pub throttle: Option<u64>,
    pub temperature: Option<i64>,
}

/// The three telemetry topics, one per status field.
#[derive(Clone, Copy, Debug, PartialEq, Eq)]
pub enum TelemetryTopic {
    Rpm,
    Throttle,
    Temperature,
}

/// The samples a status snapshot yields: one per present field, in a fixed
/// order, each with its rendered payload.
pub open spec fn spec_samples(s: Status) -> Seq<(TelemetryTopic, Seq<u8>)> {
    let rpm_part = match s.rpm {
        Some(r) => seq![(TelemetryTopic::Rpm, dec_digits(r as nat))],
        None => Seq::<(TelemetryTopic, Seq<u8>)>::empty(),
    };
    let throttle_part = match s.throttle {
        Some(t) => seq![(TelemetryTopic::Throttle, milli_digits(t as nat))],
        None => Seq::<(TelemetryTopic, Seq<u8>)>::empty(),
    };
    let temperature_part = match s.temperature {
        Some(c) => seq![(TelemetryTopic::Temperature, milli_decimal(c as int))],
        None => Seq::<(TelemetryTopic, Seq<u8>)>::empty(),
    };
    rpm_part + throttle_part + temperature_part
}

/// The payload views of a rendered sample list.
pub open spec fn sample_views(samples: Seq<(TelemetryTopic, Vec<u8>)>) -> Seq<
    (TelemetryTopic, Seq<u8>),
> {
    samples.map_values(|sample: (TelemetryTopic, Vec<u8>)| (sample.0, sample.1@))
}

/// Select and render the telemetry samples of a snapshot: exactly the
/// present fields, each under its topic with its decimal payload, so a
/// publisher can send them independently.
pub fn telemetry_samples(status: &Status) -> (samples: Vec<(TelemetryTopic, Vec<u8>)>)
    requires
        (status.temperature matches Some(c) ==> c != i64::MIN),
    ensures
        sample_views(samples@) == spec_samples(*status),
{
    let mut samples: Vec<(TelemetryTopic, Vec<u8>)> = Vec::new();
    match status.rpm {
        Some(r) => samples.push((TelemetryTopic::Rpm, u64_to_decimal(r))),
        None => {},
    }
    match status.throttle {
        Some(t) => samples.push((TelemetryTopic::Throttle, milli_u64_to_decimal(t))),
        None => {},
    }
    match status.temperature {
        Some(c) => samples.push((TelemetryTopic::Temperature, milli_i64_to_decimal(c))),
        None => {},
    }
    proof {
        assert(sample_views(samples@) =~= spec_samples(*status));
    }
    samples
}

} // verus!
